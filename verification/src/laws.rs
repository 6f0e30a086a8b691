//! Laws of whole runs of the documentation command.
//!
//! A run is the sequence of phases the command passes through, together with
//! the events the driver answered and the actions it was asked to perform.
//! The lemmas here state, over [`crate::command::step_rel`], when a viewer
//! can and cannot be launched, that a fatal kind ambiguity strikes before any
//! path is computed, and that a failed launch warns exactly once without
//! failing the command.

use crate::command::{step_rel, DocAction, DocError, DocEvent, DocOptions, Phase};
use vstd::prelude::*;

verus! {

/// A run of the command: it starts at `Compiling`, and each `events[i]`
/// answers `phases[i]`, moving the command to `phases[i + 1]` and asking the
/// driver to perform `actions[i]`.
pub open spec fn valid_run(
    options: DocOptions,
    phases: Seq<Phase>,
    events: Seq<DocEvent>,
    actions: Seq<DocAction>,
) -> bool {
    &&& phases.len() == events.len() + 1
    &&& actions.len() == events.len()
    &&& phases[0] is Compiling
    &&& forall|i: int| 0 <= i < events.len()
        ==> #[trigger] step_rel(options, phases[i], events[i], phases[i + 1], actions[i])
}

proof fn lemma_phases_when_not_requested(
    options: DocOptions,
    phases: Seq<Phase>,
    events: Seq<DocEvent>,
    actions: Seq<DocAction>,
    i: int,
)
    requires
        !options.open_result,
        valid_run(options, phases, events, actions),
        0 <= i < phases.len(),
    ensures
        phases[i] is Compiling || phases[i] is Finished,
    decreases i,
{
    if i > 0 {
        lemma_phases_when_not_requested(options, phases, events, actions, i - 1);
        let j = i - 1;
        assert(step_rel(options, phases[j], events[j], phases[j + 1], actions[j]));
    }
}

/// When opening was not requested, the command asks the driver for nothing
/// beyond the compilation itself: every action of every run is `Done`, so no
/// path is checked, no viewer is launched, and no warning is issued.
pub proof fn lemma_not_requested_never_launches(
    options: DocOptions,
    phases: Seq<Phase>,
    events: Seq<DocEvent>,
    actions: Seq<DocAction>,
    i: int,
)
    requires
        !options.open_result,
        valid_run(options, phases, events, actions),
        0 <= i < actions.len(),
    ensures
        actions[i] is Done,
{
    lemma_phases_when_not_requested(options, phases, events, actions, i);
    assert(step_rel(options, phases[i], events[i], phases[i + 1], actions[i]));
}

proof fn lemma_phases_when_index_missing(
    options: DocOptions,
    phases: Seq<Phase>,
    events: Seq<DocEvent>,
    actions: Seq<DocAction>,
    i: int,
)
    requires
        valid_run(options, phases, events, actions),
        forall|j: int| 0 <= j < events.len()
            ==> (#[trigger] events[j] matches DocEvent::IndexChecked(found) ==> !found),
        0 <= i < phases.len(),
    ensures
        phases[i] is Compiling || phases[i] is CheckingIndex || phases[i] is Finished,
    decreases i,
{
    if i > 0 {
        lemma_phases_when_index_missing(options, phases, events, actions, i - 1);
        let j = i - 1;
        assert(step_rel(options, phases[j], events[j], phases[j + 1], actions[j]));
    }
}

/// When the computed index path never turns out to exist on disk, the
/// command never launches a viewer, never reads the configuration, and never
/// warns: beyond the existence check itself it asks for nothing.
pub proof fn lemma_missing_index_never_launches(
    options: DocOptions,
    phases: Seq<Phase>,
    events: Seq<DocEvent>,
    actions: Seq<DocAction>,
    i: int,
)
    requires
        valid_run(options, phases, events, actions),
        forall|j: int| 0 <= j < events.len()
            ==> (#[trigger] events[j] matches DocEvent::IndexChecked(found) ==> !found),
        0 <= i < actions.len(),
    ensures
        actions[i] is Done || actions[i] is CheckIndex,
{
    lemma_phases_when_index_missing(options, phases, events, actions, i);
    assert(step_rel(options, phases[i], events[i], phases[i + 1], actions[i]));
}

/// Answering the existence check with "absent" ends the command at once,
/// successfully and silently.
pub proof fn lemma_missing_index_is_success(
    options: DocOptions,
    path: Vec<String>,
    next: Phase,
    action: DocAction,
)
    requires
        step_rel(
            options,
            Phase::CheckingIndex { path },
            DocEvent::IndexChecked(false),
            next,
            action,
        ),
    ensures
        next == (Phase::Finished { result: Ok::<(), DocError>(()) }),
        action is Done,
{
}

/// With opening requested and more than one target kind asked for, the
/// command fails with `AmbiguousTargetKind` before any path computation: the
/// step ends the run and its action carries nothing.
pub proof fn lemma_ambiguous_kind_fails_early(
    options: DocOptions,
    report: crate::pipeline::CompilationResult,
    next: Phase,
    action: DocAction,
)
    requires
        options.open_result,
        options.compile_opts.build_config.requested_kinds@.len() > 1,
        step_rel(
            options,
            Phase::Compiling,
            DocEvent::CompileFinished(Ok(report)),
            next,
            action,
        ),
    ensures
        next == (Phase::Finished { result: Err(DocError::AmbiguousTargetKind) }),
        action is Done,
{
}

proof fn lemma_phases_after_launch(
    options: DocOptions,
    phases: Seq<Phase>,
    events: Seq<DocEvent>,
    actions: Seq<DocAction>,
    start: int,
    i: int,
)
    requires
        valid_run(options, phases, events, actions),
        0 <= start <= i < phases.len(),
        phases[start] is Launching || phases[start] is Finished,
    ensures
        phases[i] is Launching || phases[i] is Finished,
    decreases i - start,
{
    if i > start {
        lemma_phases_after_launch(options, phases, events, actions, start, i - 1);
        let j = i - 1;
        assert(step_rel(options, phases[j], events[j], phases[j + 1], actions[j]));
    }
}

/// A run launches a viewer at most once: once a launch — explicit program or
/// platform default — has been asked for, no later step asks for another.
pub proof fn lemma_launch_at_most_once(
    options: DocOptions,
    phases: Seq<Phase>,
    events: Seq<DocEvent>,
    actions: Seq<DocAction>,
    i: int,
    j: int,
)
    requires
        valid_run(options, phases, events, actions),
        0 <= i < j < actions.len(),
        actions[i] is SpawnViewer || actions[i] is OpenDefault,
    ensures
        !(actions[j] is SpawnViewer),
        !(actions[j] is OpenDefault),
{
    assert(step_rel(options, phases[i], events[i], phases[i + 1], actions[i]));
    assert(phases[i + 1] is Launching);
    lemma_phases_after_launch(options, phases, events, actions, i + 1, j);
    assert(step_rel(options, phases[j], events[j], phases[j + 1], actions[j]));
}

/// A warning, where one is issued, is the run's last step: the command is
/// finished right after it, so no second warning can follow.
pub proof fn lemma_warning_is_final(
    options: DocOptions,
    phases: Seq<Phase>,
    events: Seq<DocEvent>,
    actions: Seq<DocAction>,
    i: int,
)
    requires
        valid_run(options, phases, events, actions),
        0 <= i < actions.len(),
        actions[i] is Warn,
    ensures
        i == actions.len() - 1,
        phases[i + 1] is Finished,
{
    assert(step_rel(options, phases[i], events[i], phases[i + 1], actions[i]));
    if i + 1 < events.len() {
        let j = i + 1;
        assert(step_rel(options, phases[j], events[j], phases[j + 1], actions[j]));
    }
}

/// A failed launch of a resolved program — configured or taken from the
/// environment — produces one warning that names the program and carries the
/// error, and the command still succeeds.
pub proof fn lemma_failed_launch_warns_and_succeeds(
    options: DocOptions,
    program: String,
    error: String,
    next: Phase,
    action: DocAction,
)
    requires
        step_rel(
            options,
            Phase::Launching { program: Some(program) },
            DocEvent::LaunchFinished(Err(error)),
            next,
            action,
        ),
    ensures
        next == (Phase::Finished { result: Ok::<(), DocError>(()) }),
        action matches DocAction::Warn { message, detail }
            && message@ == "Couldn't open docs with "@ + program@ + ": "@ + error@
            && detail is None,
{
}

/// With no configured browser and no set, non-empty `BROWSER` value, the
/// step after a successful status message invokes the platform-default
/// opener — and, by [`lemma_launch_at_most_once`], no later step of the run
/// launches anything again: the opener runs exactly once.
pub proof fn lemma_no_sources_use_default_opener(
    options: DocOptions,
    phases: Seq<Phase>,
    events: Seq<DocEvent>,
    actions: Seq<DocAction>,
    i: int,
)
    requires
        valid_run(options, phases, events, actions),
        0 <= i,
        i + 1 < events.len(),
        events[i] matches DocEvent::ConfigRead(Ok(sources))
            && sources.configured is None
            && !(sources.browser_env matches Some(s) && s@.len() > 0),
        events[i + 1] matches DocEvent::StatusEmitted(Ok(())),
    ensures
        actions[i + 1] is OpenDefault,
{
    assert(step_rel(options, phases[i], events[i], phases[i + 1], actions[i]));
    let j = i + 1;
    assert(step_rel(options, phases[j], events[j], phases[j + 1], actions[j]));
}

/// Once the platform-default viewer choice has survived the status message,
/// the platform-default opener is what the driver is asked to run, on the
/// very path the command computed.
pub proof fn lemma_default_opener_is_invoked(
    options: DocOptions,
    path: Vec<String>,
    next: Phase,
    action: DocAction,
)
    requires
        step_rel(
            options,
            Phase::EmittingStatus {
                path,
                viewer: crate::viewer::ViewerChoice::PlatformDefault,
            },
            DocEvent::StatusEmitted(Ok(())),
            next,
            action,
        ),
    ensures
        next == (Phase::Launching { program: None }),
        action matches DocAction::OpenDefault { path: q } && q.deep_view() == path.deep_view(),
{
}

} // verus!
