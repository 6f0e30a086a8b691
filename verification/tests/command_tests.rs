use docopen::command::{doc, DocAction, DocError, DocEvent, DocOptions, Phase};
use docopen::paths::{clone_path, doc_index_path};
use docopen::pipeline::{BuildConfig, CompilationResult, CompileOptions, TargetKind};
use docopen::viewer::{launch_failure_warning, resolve_viewer, ResolvedViewer, ViewerChoice, ViewerSources};

fn options_with_kinds(open_result: bool, kinds: Vec<u64>) -> DocOptions {
    DocOptions {
        open_result,
        compile_opts: CompileOptions {
            build_config: BuildConfig {
                requested_kinds: kinds.into_iter().map(|id| TargetKind { id }).collect(),
            },
        },
    }
}

fn sample_report() -> CompilationResult {
    CompilationResult {
        root_crate_names: vec!["mycrate".to_string()],
        root_output: vec![(
            TargetKind { id: 1 },
            vec!["target".to_string(), "debug".to_string()],
        )],
    }
}

fn sample_index_path() -> Vec<String> {
    vec![
        "target".to_string(),
        "debug".to_string(),
        "doc".to_string(),
        "mycrate".to_string(),
        "index.html".to_string(),
    ]
}

#[test]
fn open_not_requested_finishes_after_compile() {
    let options = options_with_kinds(false, vec![1]);
    let (phase, action) = doc(
        &options,
        Phase::Compiling,
        DocEvent::CompileFinished(Ok(sample_report())),
    );
    assert_eq!(phase, Phase::Finished { result: Ok(()) });
    assert_eq!(action, DocAction::Done);
}

#[test]
fn compilation_error_propagates() {
    let options = options_with_kinds(true, vec![1]);
    let (phase, action) = doc(
        &options,
        Phase::Compiling,
        DocEvent::CompileFinished(Err("rustdoc failed".to_string())),
    );
    assert_eq!(
        phase,
        Phase::Finished {
            result: Err(DocError::CompilationError("rustdoc failed".to_string()))
        }
    );
    assert_eq!(action, DocAction::Done);
}

#[test]
fn two_requested_kinds_fail_before_any_path() {
    let options = options_with_kinds(true, vec![1, 2]);
    let (phase, action) = doc(
        &options,
        Phase::Compiling,
        DocEvent::CompileFinished(Ok(sample_report())),
    );
    assert_eq!(
        phase,
        Phase::Finished { result: Err(DocError::AmbiguousTargetKind) }
    );
    assert_eq!(action, DocAction::Done);
}

#[test]
fn successful_compile_asks_for_existence_check() {
    let options = options_with_kinds(true, vec![1]);
    let (phase, action) = doc(
        &options,
        Phase::Compiling,
        DocEvent::CompileFinished(Ok(sample_report())),
    );
    assert_eq!(phase, Phase::CheckingIndex { path: sample_index_path() });
    assert_eq!(action, DocAction::CheckIndex { path: sample_index_path() });
}

#[test]
fn output_directory_is_selected_by_kind() {
    let options = options_with_kinds(true, vec![7]);
    let report = CompilationResult {
        root_crate_names: vec!["mycrate".to_string()],
        root_output: vec![
            (TargetKind { id: 1 }, vec!["host".to_string()]),
            (TargetKind { id: 7 }, vec!["cross".to_string()]),
        ],
    };
    let (_, action) = doc(&options, Phase::Compiling, DocEvent::CompileFinished(Ok(report)));
    let expected = vec![
        "cross".to_string(),
        "doc".to_string(),
        "mycrate".to_string(),
        "index.html".to_string(),
    ];
    assert_eq!(action, DocAction::CheckIndex { path: expected });
}

#[test]
fn missing_index_is_silent_success() {
    let options = options_with_kinds(true, vec![1]);
    let (phase, action) = doc(
        &options,
        Phase::CheckingIndex { path: sample_index_path() },
        DocEvent::IndexChecked(false),
    );
    assert_eq!(phase, Phase::Finished { result: Ok(()) });
    assert_eq!(action, DocAction::Done);
}

#[test]
fn existing_index_asks_for_config() {
    let options = options_with_kinds(true, vec![1]);
    let (phase, action) = doc(
        &options,
        Phase::CheckingIndex { path: sample_index_path() },
        DocEvent::IndexChecked(true),
    );
    assert_eq!(phase, Phase::ReadingConfig { path: sample_index_path() });
    assert_eq!(action, DocAction::ReadConfig);
}

#[test]
fn config_error_propagates() {
    let options = options_with_kinds(true, vec![1]);
    let (phase, action) = doc(
        &options,
        Phase::ReadingConfig { path: sample_index_path() },
        DocEvent::ConfigRead(Err("bad doc.browser value".to_string())),
    );
    assert_eq!(
        phase,
        Phase::Finished {
            result: Err(DocError::ConfigError("bad doc.browser value".to_string()))
        }
    );
    assert_eq!(action, DocAction::Done);
}

#[test]
fn status_error_propagates() {
    let options = options_with_kinds(true, vec![1]);
    let (phase, action) = doc(
        &options,
        Phase::EmittingStatus {
            path: sample_index_path(),
            viewer: ViewerChoice::PlatformDefault,
        },
        DocEvent::StatusEmitted(Err("broken pipe".to_string())),
    );
    assert_eq!(
        phase,
        Phase::Finished { result: Err(DocError::ReportError("broken pipe".to_string())) }
    );
    assert_eq!(action, DocAction::Done);
}

#[test]
fn configured_browser_takes_precedence_over_environment() {
    let configured = ResolvedViewer {
        program: "/usr/bin/firefox".to_string(),
        args: vec!["--new-window".to_string()],
    };
    let choice = resolve_viewer(ViewerSources {
        configured: Some(configured.clone()),
        browser_env: Some("/usr/bin/chromium".to_string()),
    });
    assert_eq!(choice, ViewerChoice::Program(configured));
}

#[test]
fn environment_browser_is_used_when_nothing_is_configured() {
    let choice = resolve_viewer(ViewerSources {
        configured: None,
        browser_env: Some("/bin/false".to_string()),
    });
    assert_eq!(
        choice,
        ViewerChoice::Program(ResolvedViewer {
            program: "/bin/false".to_string(),
            args: vec![],
        })
    );
}

#[test]
fn empty_environment_variable_falls_back_to_platform_default() {
    let choice = resolve_viewer(ViewerSources {
        configured: None,
        browser_env: Some(String::new()),
    });
    assert_eq!(choice, ViewerChoice::PlatformDefault);
}

#[test]
fn unset_environment_falls_back_to_platform_default() {
    let choice = resolve_viewer(ViewerSources { configured: None, browser_env: None });
    assert_eq!(choice, ViewerChoice::PlatformDefault);
}

#[test]
fn default_opener_run_opens_index_once() {
    // No configured browser, `BROWSER` unset, the index exists: the platform
    // opener is handed the index path, and the command succeeds.
    let options = options_with_kinds(true, vec![1]);
    let (phase, action) = doc(
        &options,
        Phase::Compiling,
        DocEvent::CompileFinished(Ok(sample_report())),
    );
    assert_eq!(action, DocAction::CheckIndex { path: sample_index_path() });
    let (phase, action) = doc(&options, phase, DocEvent::IndexChecked(true));
    assert_eq!(action, DocAction::ReadConfig);
    let sources = ViewerSources { configured: None, browser_env: None };
    let (phase, action) = doc(&options, phase, DocEvent::ConfigRead(Ok(sources)));
    assert_eq!(action, DocAction::EmitStatus { path: sample_index_path() });
    assert_eq!(
        phase,
        Phase::EmittingStatus {
            path: sample_index_path(),
            viewer: ViewerChoice::PlatformDefault,
        }
    );
    let (phase, action) = doc(&options, phase, DocEvent::StatusEmitted(Ok(())));
    assert_eq!(phase, Phase::Launching { program: None });
    assert_eq!(action, DocAction::OpenDefault { path: sample_index_path() });
    let (phase, action) = doc(&options, phase, DocEvent::LaunchFinished(Ok(())));
    assert_eq!(phase, Phase::Finished { result: Ok(()) });
    assert_eq!(action, DocAction::Done);
}

#[test]
fn configured_browser_run_spawns_program_args_then_path() {
    // `doc.browser = { path: "/usr/bin/firefox", args: ["--new-window"] }`:
    // the spawned argument vector is the configured arguments, then the path.
    let options = options_with_kinds(true, vec![1]);
    let (phase, _) = doc(
        &options,
        Phase::Compiling,
        DocEvent::CompileFinished(Ok(sample_report())),
    );
    let (phase, _) = doc(&options, phase, DocEvent::IndexChecked(true));
    let sources = ViewerSources {
        configured: Some(ResolvedViewer {
            program: "/usr/bin/firefox".to_string(),
            args: vec!["--new-window".to_string()],
        }),
        browser_env: None,
    };
    let (phase, _) = doc(&options, phase, DocEvent::ConfigRead(Ok(sources)));
    let (phase, action) = doc(&options, phase, DocEvent::StatusEmitted(Ok(())));
    assert_eq!(phase, Phase::Launching { program: Some("/usr/bin/firefox".to_string()) });
    assert_eq!(
        action,
        DocAction::SpawnViewer {
            program: "/usr/bin/firefox".to_string(),
            args: vec!["--new-window".to_string()],
            path: sample_index_path(),
        }
    );
    let (phase, action) = doc(&options, phase, DocEvent::LaunchFinished(Ok(())));
    assert_eq!(phase, Phase::Finished { result: Ok(()) });
    assert_eq!(action, DocAction::Done);
}

#[test]
fn environment_browser_failure_warns_once_and_succeeds() {
    // `BROWSER=/bin/false`: the spawned process exits non-zero; one warning
    // names the program, and the command still succeeds.
    let options = options_with_kinds(true, vec![1]);
    let (phase, _) = doc(
        &options,
        Phase::Compiling,
        DocEvent::CompileFinished(Ok(sample_report())),
    );
    let (phase, _) = doc(&options, phase, DocEvent::IndexChecked(true));
    let sources = ViewerSources {
        configured: None,
        browser_env: Some("/bin/false".to_string()),
    };
    let (phase, _) = doc(&options, phase, DocEvent::ConfigRead(Ok(sources)));
    let (phase, action) = doc(&options, phase, DocEvent::StatusEmitted(Ok(())));
    assert_eq!(phase, Phase::Launching { program: Some("/bin/false".to_string()) });
    assert!(matches!(action, DocAction::SpawnViewer { .. }));
    let (phase, action) = doc(
        &options,
        phase,
        DocEvent::LaunchFinished(Err("process exited with exit status: 1".to_string())),
    );
    assert_eq!(phase, Phase::Finished { result: Ok(()) });
    assert_eq!(
        action,
        DocAction::Warn {
            message: "Couldn't open docs with /bin/false: process exited with exit status: 1"
                .to_string(),
            detail: None,
        }
    );
}

#[test]
fn default_opener_failure_warns_with_detail() {
    let options = options_with_kinds(true, vec![1]);
    let (phase, action) = doc(
        &options,
        Phase::Launching { program: None },
        DocEvent::LaunchFinished(Err("no handler registered".to_string())),
    );
    assert_eq!(phase, Phase::Finished { result: Ok(()) });
    assert_eq!(
        action,
        DocAction::Warn {
            message: "couldn't open docs".to_string(),
            detail: Some("no handler registered".to_string()),
        }
    );
}

#[test]
fn doc_index_path_appends_doc_name_and_index() {
    let dir = vec!["target".to_string(), "debug".to_string()];
    let path = doc_index_path(dir, "serde".to_string());
    assert_eq!(
        path,
        vec![
            "target".to_string(),
            "debug".to_string(),
            "doc".to_string(),
            "serde".to_string(),
            "index.html".to_string(),
        ]
    );
}

#[test]
fn clone_path_copies_every_component() {
    let path = sample_index_path();
    assert_eq!(clone_path(&path), path);
}

#[test]
fn launch_failure_warning_names_program_and_error() {
    let message = launch_failure_warning(
        &"/usr/bin/firefox".to_string(),
        &"No such file or directory".to_string(),
    );
    assert_eq!(
        message,
        "Couldn't open docs with /usr/bin/firefox: No such file or directory"
    );
}

#[test]
fn take_output_for_kind_picks_first_matching_entry() {
    let report = CompilationResult {
        root_crate_names: vec!["mycrate".to_string()],
        root_output: vec![
            (TargetKind { id: 3 }, vec!["first".to_string()]),
            (TargetKind { id: 5 }, vec!["other".to_string()]),
            (TargetKind { id: 3 }, vec!["second".to_string()]),
        ],
    };
    let dir = report.take_output_for_kind(TargetKind { id: 3 });
    assert_eq!(dir, vec!["first".to_string()]);
}
