//! The documentation command, one decision step at a time.
//!
//! The command alternates outside work — compiling, probing the filesystem,
//! reading configuration, reporting, launching a viewer — with decisions.
//! Every decision lives here: [`doc`] takes the phase the command stands in
//! and the outcome of the last outside call, and returns the next phase
//! together with the action the driver must perform. The driver performs the
//! action, hands back its outcome as the next event, and stops once the
//! phase is `Finished`.

use crate::paths::{clone_path, doc_index_path, doc_index_path_of};
use crate::pipeline::{has_kind, output_for_kind, CompilationResult, CompileOptions};
use crate::viewer::{is_choice_of, launch_failure_warning, resolve_viewer, ViewerChoice, ViewerSources};
use vstd::prelude::*;
use vstd::string::StringExecFns;

verus! {

/// Strongly typed options for the documentation command.
#[derive(Debug, Clone, PartialEq, Eq)]
pub struct DocOptions {
    /// Whether to attempt to open the browser after compiling the docs.
    pub open_result: bool,
    /// Options to pass through to the compilation pipeline.
    pub compile_opts: CompileOptions,
}

/// Why the documentation command failed.
#[derive(Debug, Clone, PartialEq, Eq)]
pub enum DocError {
    /// The compilation pipeline reported an error.
    CompilationError(String),
    /// Opening was requested, but not exactly one target kind was asked for,
    /// so no single output directory holds the index to open.
    AmbiguousTargetKind,
    /// The browser configuration entry could not be read.
    ConfigError(String),
    /// The reporting facility failed while the status message was emitted.
    ReportError(String),
}

/// Where the command stands while the driver performs an outside call.
#[derive(Debug, PartialEq, Eq)]
pub enum Phase {
    /// The compilation pipeline is running.
    Compiling,
    /// Waiting to learn whether the index at `path` exists on disk.
    CheckingIndex { path: Vec<String> },
    /// Waiting for the browser configuration entry and the environment
    /// snapshot.
    ReadingConfig { path: Vec<String> },
    /// Waiting for the "Opening" status message to be emitted.
    EmittingStatus { path: Vec<String>, viewer: ViewerChoice },
    /// Waiting for the launched viewer; `program` names the spawned
    /// executable, or is `None` when the platform-default opener runs.
    Launching { program: Option<String> },
    /// The command is over, with this result.
    Finished { result: Result<(), DocError> },
}

/// The outcome of the last outside call, reported back by the driver.
#[derive(Debug, PartialEq, Eq)]
pub enum DocEvent {
    /// The pipeline finished, with its report or its error message.
    CompileFinished(Result<CompilationResult, String>),
    /// Whether the index path exists on disk.
    IndexChecked(bool),
    /// The viewer sources, or the error that reading the configuration
    /// produced.
    ConfigRead(Result<ViewerSources, String>),
    /// Whether the status message could be emitted.
    StatusEmitted(Result<(), String>),
    /// Whether the viewer — spawned program or platform opener — succeeded.
    LaunchFinished(Result<(), String>),
}

/// What the driver must do next.
#[derive(Debug, PartialEq, Eq)]
pub enum DocAction {
    /// Check whether `path` exists on disk.
    CheckIndex { path: Vec<String> },
    /// Read the browser configuration entry and snapshot `BROWSER`.
    ReadConfig,
    /// Emit the "Opening" status message for `path`.
    EmitStatus { path: Vec<String> },
    /// Spawn `program` with `args` followed by the target path as the final
    /// argument, and wait for it to exit.
    SpawnViewer { program: String, args: Vec<String>, path: Vec<String> },
    /// Hand `path` to the platform-default opener.
    OpenDefault { path: Vec<String> },
    /// Report a warning; `detail` carries the underlying error to display
    /// alongside the message, where one exists.
    Warn { message: String, detail: Option<String> },
    /// Nothing: the command is finished (see the phase's result).
    Done,
}

/// Which events may answer which phase. A finished command takes no event.
pub open spec fn event_fits(phase: Phase, event: DocEvent) -> bool {
    match phase {
        Phase::Compiling => event is CompileFinished,
        Phase::CheckingIndex { .. } => event is IndexChecked,
        Phase::ReadingConfig { .. } => event is ConfigRead,
        Phase::EmittingStatus { .. } => event is StatusEmitted,
        Phase::Launching { .. } => event is LaunchFinished,
        Phase::Finished { .. } => false,
    }
}

/// What the command assumes of a successful compilation report when opening
/// was requested: documentation was generated for at least one root crate,
/// and the single requested kind, where there is one, has a recorded output
/// directory.
pub open spec fn compile_report_complete(options: DocOptions, event: DocEvent) -> bool {
    match event {
        DocEvent::CompileFinished(Ok(c)) => options.open_result ==> {
            &&& c.root_crate_names@.len() > 0
            &&& (options.compile_opts.build_config.requested_kinds@.len() == 1
                ==> has_kind(c.root_output@, options.compile_opts.build_config.requested_kinds@[0]))
        },
        _ => true,
    }
}

/// The command's transition relation: standing in `phase`, on `event`, the
/// command moves to `next` and asks the driver to perform `action`. This is
/// the whole of the command's logic; [`doc`] implements it, and the laws in
/// [`crate::laws`] are stated over it.
pub open spec fn step_rel(
    options: DocOptions,
    phase: Phase,
    event: DocEvent,
    next: Phase,
    action: DocAction,
) -> bool {
    match (phase, event) {
        (Phase::Compiling, DocEvent::CompileFinished(report)) => match report {
            Err(e) => {
                &&& next == (Phase::Finished { result: Err(DocError::CompilationError(e)) })
                &&& action is Done
            },
            Ok(c) => {
                if !options.open_result {
                    &&& next == (Phase::Finished { result: Ok::<(), DocError>(()) })
                    &&& action is Done
                } else if options.compile_opts.build_config.requested_kinds@.len() != 1 {
                    &&& next == (Phase::Finished { result: Err(DocError::AmbiguousTargetKind) })
                    &&& action is Done
                } else {
                    let kind = options.compile_opts.build_config.requested_kinds@[0];
                    let index = doc_index_path_of(
                        output_for_kind(c.root_output@, kind),
                        c.root_crate_names@[0]@,
                    );
                    &&& next matches Phase::CheckingIndex { path } && path.deep_view() == index
                    &&& action matches DocAction::CheckIndex { path } && path.deep_view() == index
                }
            },
        },
        (Phase::CheckingIndex { path }, DocEvent::IndexChecked(found)) => {
            if found {
                &&& next matches Phase::ReadingConfig { path: p }
                    && p.deep_view() == path.deep_view()
                &&& action is ReadConfig
            } else {
                &&& next == (Phase::Finished { result: Ok::<(), DocError>(()) })
                &&& action is Done
            }
        },
        (Phase::ReadingConfig { path }, DocEvent::ConfigRead(read)) => match read {
            Err(e) => {
                &&& next == (Phase::Finished { result: Err(DocError::ConfigError(e)) })
                &&& action is Done
            },
            Ok(sources) => {
                &&& next matches Phase::EmittingStatus { path: p, viewer }
                    && p.deep_view() == path.deep_view()
                    && is_choice_of(sources, viewer)
                &&& action matches DocAction::EmitStatus { path: q }
                    && q.deep_view() == path.deep_view()
            },
        },
        (Phase::EmittingStatus { path, viewer }, DocEvent::StatusEmitted(emitted)) => match emitted {
            Err(e) => {
                &&& next == (Phase::Finished { result: Err(DocError::ReportError(e)) })
                &&& action is Done
            },
            Ok(()) => match viewer {
                ViewerChoice::Program(v) => {
                    &&& next == (Phase::Launching { program: Some(v.program) })
                    &&& action matches DocAction::SpawnViewer { program, args, path: q }
                        && program@ == v.program@
                        && args.deep_view() == v.args.deep_view()
                        && q.deep_view() == path.deep_view()
                },
                ViewerChoice::PlatformDefault => {
                    &&& next == (Phase::Launching { program: None })
                    &&& action matches DocAction::OpenDefault { path: q }
                        && q.deep_view() == path.deep_view()
                },
            },
        },
        (Phase::Launching { program }, DocEvent::LaunchFinished(outcome)) => match outcome {
            Ok(()) => {
                &&& next == (Phase::Finished { result: Ok::<(), DocError>(()) })
                &&& action is Done
            },
            Err(e) => {
                &&& next == (Phase::Finished { result: Ok::<(), DocError>(()) })
                &&& match program {
                    Some(p) => action matches DocAction::Warn { message, detail }
                        && message@ == "Couldn't open docs with "@ + p@ + ": "@ + e@
                        && detail is None,
                    None => action matches DocAction::Warn { message, detail }
                        && message@ == "couldn't open docs"@
                        && (detail matches Some(d) && d@ == e@),
                }
            },
        },
        _ => false,
    }
}

/// One decision step of the documentation command.
///
/// From the phase the command stands in and the outcome of the last outside
/// call, this computes the next phase and the action the driver must perform:
/// a failed compilation fails the command; when opening was not requested the
/// command is over; opening with several requested target kinds is refused
/// outright; otherwise the index path is computed and checked, the viewer
/// resolved, and a failed launch downgraded to a warning that never fails
/// the command.
pub fn doc(options: &DocOptions, phase: Phase, event: DocEvent) -> (r: (Phase, DocAction))
    requires
        event_fits(phase, event),
        compile_report_complete(*options, event),
    ensures
        step_rel(*options, phase, event, r.0, r.1),
{
    match (phase, event) {
        (Phase::Compiling, DocEvent::CompileFinished(report)) => match report {
            Err(e) => (
                Phase::Finished { result: Err(DocError::CompilationError(e)) },
                DocAction::Done,
            ),
            Ok(c) => {
                if !options.open_result {
                    (Phase::Finished { result: Ok(()) }, DocAction::Done)
                } else if options.compile_opts.build_config.requested_kinds.len() != 1 {
                    (
                        Phase::Finished { result: Err(DocError::AmbiguousTargetKind) },
                        DocAction::Done,
                    )
                } else {
                    let kind = options.compile_opts.build_config.requested_kinds[0];
                    let mut c = c;
                    let name = c.root_crate_names.remove(0);
                    let dir = c.take_output_for_kind(kind);
                    let index = doc_index_path(dir, name);
                    let index_again = clone_path(&index);
                    (
                        Phase::CheckingIndex { path: index },
                        DocAction::CheckIndex { path: index_again },
                    )
                }
            },
        },
        (Phase::CheckingIndex { path }, DocEvent::IndexChecked(found)) => {
            if found {
                (Phase::ReadingConfig { path }, DocAction::ReadConfig)
            } else {
                (Phase::Finished { result: Ok(()) }, DocAction::Done)
            }
        },
        (Phase::ReadingConfig { path }, DocEvent::ConfigRead(read)) => match read {
            Err(e) => (
                Phase::Finished { result: Err(DocError::ConfigError(e)) },
                DocAction::Done,
            ),
            Ok(sources) => {
                let viewer = resolve_viewer(sources);
                let path_again = clone_path(&path);
                (
                    Phase::EmittingStatus { path, viewer },
                    DocAction::EmitStatus { path: path_again },
                )
            },
        },
        (Phase::EmittingStatus { path, viewer }, DocEvent::StatusEmitted(emitted)) => match emitted {
            Err(e) => (
                Phase::Finished { result: Err(DocError::ReportError(e)) },
                DocAction::Done,
            ),
            Ok(()) => match viewer {
                ViewerChoice::Program(v) => {
                    let spawned = v.program.clone();
                    (
                        Phase::Launching { program: Some(spawned) },
                        DocAction::SpawnViewer { program: v.program, args: v.args, path },
                    )
                },
                ViewerChoice::PlatformDefault => (
                    Phase::Launching { program: None },
                    DocAction::OpenDefault { path },
                ),
            },
        },
        (Phase::Launching { program }, DocEvent::LaunchFinished(outcome)) => match outcome {
            Ok(()) => (Phase::Finished { result: Ok(()) }, DocAction::Done),
            Err(e) => {
                let warning = match program {
                    Some(p) => DocAction::Warn {
                        message: launch_failure_warning(&p, &e),
                        detail: None,
                    },
                    None => DocAction::Warn {
                        message: String::from_str("couldn't open docs"),
                        detail: Some(e),
                    },
                };
                (Phase::Finished { result: Ok(()) }, warning)
            },
        },
        _ => vstd::pervasive::unreached(),
    }
}

} // verus!

