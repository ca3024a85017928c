//! The bootstrap sequence: an ordered list of setup steps, each performed by
//! the host program, with the decision of what comes next made here.
//!
//! The host asks for the current `Action`, performs it, and reports the
//! outcome as an `Event`. Fatal failures end the sequence at once.
use vstd::prelude::*;
use crate::launch::{contains_minimized_flag, has_minimized_flag};
use crate::platform::PlatformCapabilities;

verus! {

/// A capability plugin attached to the application.
#[derive(Clone, Copy, Debug, PartialEq, Eq, Structural)]
pub enum Plugin {
    /// Operating-system information, attached when the application is built.
    Os,
    Notification,
    Opener,
    Dialog,
    /// Start at login, relaunching with the minimized flag.
    Autostart,
}

/// One setup step.
#[derive(Clone, Copy, Debug, PartialEq, Eq, Structural)]
pub enum Step {
    InitLogging,
    RegisterPlugin(Plugin),
    ResolveDataDir,
    CreateDataDir,
    ReportDataDir,
    ReadLaunchArgs,
    MinimizeWindow,
    RunEventLoop,
}

/// Where the sequence stands.
#[derive(Clone, Copy, Debug, PartialEq, Eq, Structural)]
pub enum Phase {
    /// The step that is due.
    Running(Step),
    /// The event loop has ended normally.
    Finished,
    /// The step that failed fatally; nothing more is done.
    Aborted(Step),
}

/// What the host is asked to do next.
#[derive(Clone, Copy, Debug, PartialEq, Eq, Structural)]
pub enum Action {
    /// Carry out this step and report its outcome.
    Perform(Step),
    /// Stop the process with a diagnostic that names this step.
    Abort(Step),
    /// Nothing is left to do.
    Exit,
}

/// The outcome of a step, as the host reports it.
pub enum Event {
    /// The step succeeded.
    Done,
    /// The step failed.
    Failed,
    /// The launch arguments, in answer to `ReadLaunchArgs`.
    LaunchArgs(Vec<String>),
    /// No main window is registered, in answer to `MinimizeWindow`.
    WindowMissing,
}

/// The state of the sequence.
#[derive(Clone, Copy, Debug, PartialEq, Eq, Structural)]
pub struct Bootstrap {
    /// The platform features, fixed at the start.
    pub caps: PlatformCapabilities,
    /// Where the sequence stands.
    pub phase: Phase,
    /// Whether the log sink has been set up.
    pub logging_ready: bool,
}

/// The diagnostic that ends the process when step `s` fails.
pub open spec fn failure_message(s: Step) -> Seq<char> {
    match s {
        Step::InitLogging => "failed to initialize logging"@,
        Step::RegisterPlugin(Plugin::Os) => "failed to register the os plugin"@,
        Step::RegisterPlugin(Plugin::Notification) => "failed to register the notification plugin"@,
        Step::RegisterPlugin(Plugin::Opener) => "failed to register the opener plugin"@,
        Step::RegisterPlugin(Plugin::Dialog) => "failed to register the dialog plugin"@,
        Step::RegisterPlugin(Plugin::Autostart) => "failed to register the autostart plugin"@,
        Step::ResolveDataDir => "failed to get app data dir"@,
        Step::CreateDataDir => "failed to create data dir"@,
        Step::ReportDataDir => "failed to report app data dir"@,
        Step::ReadLaunchArgs => "failed to read launch arguments"@,
        Step::MinimizeWindow => "failed to minimize the main window"@,
        Step::RunEventLoop => "error while running the application"@,
    }
}

impl Step {
    /// The diagnostic that ends the process when this step fails.
    pub fn failure_message(&self) -> (r: String)
        ensures
            r@ == failure_message(*self),
    {
        match self {
            Step::InitLogging => "failed to initialize logging".to_owned(),
            Step::RegisterPlugin(Plugin::Os) => "failed to register the os plugin".to_owned(),
            Step::RegisterPlugin(Plugin::Notification) => "failed to register the notification plugin".to_owned(),
            Step::RegisterPlugin(Plugin::Opener) => "failed to register the opener plugin".to_owned(),
            Step::RegisterPlugin(Plugin::Dialog) => "failed to register the dialog plugin".to_owned(),
            Step::RegisterPlugin(Plugin::Autostart) => "failed to register the autostart plugin".to_owned(),
            Step::ResolveDataDir => "failed to get app data dir".to_owned(),
            Step::CreateDataDir => "failed to create data dir".to_owned(),
            Step::ReportDataDir => "failed to report app data dir".to_owned(),
            Step::ReadLaunchArgs => "failed to read launch arguments".to_owned(),
            Step::MinimizeWindow => "failed to minimize the main window".to_owned(),
            Step::RunEventLoop => "error while running the application".to_owned(),
        }
    }
}

/// Steps whose failure ends startup.
pub open spec fn is_fatal_step(s: Step) -> bool {
    match s {
        Step::RegisterPlugin(_) | Step::ResolveDataDir | Step::CreateDataDir | Step::RunEventLoop => true,
        _ => false,
    }
}

/// The first plugin registered after the launch-argument steps.
pub open spec fn first_feature_plugin() -> Phase {
    Phase::Running(Step::RegisterPlugin(Plugin::Notification))
}

/// What follows `s` when it succeeds (for `ReadLaunchArgs`: when the minimized
/// flag is absent).
pub open spec fn phase_after(caps: PlatformCapabilities, s: Step) -> Phase {
    match s {
        Step::InitLogging => Phase::Running(Step::RegisterPlugin(Plugin::Os)),
        Step::RegisterPlugin(Plugin::Os) => Phase::Running(Step::ResolveDataDir),
        Step::ResolveDataDir => Phase::Running(Step::CreateDataDir),
        Step::CreateDataDir => Phase::Running(Step::ReportDataDir),
        Step::ReportDataDir => if caps.supports_minimized_launch {
            Phase::Running(Step::ReadLaunchArgs)
        } else {
            first_feature_plugin()
        },
        Step::ReadLaunchArgs => first_feature_plugin(),
        Step::MinimizeWindow => first_feature_plugin(),
        Step::RegisterPlugin(Plugin::Notification) => Phase::Running(
            Step::RegisterPlugin(Plugin::Opener),
        ),
        Step::RegisterPlugin(Plugin::Opener) => Phase::Running(Step::RegisterPlugin(Plugin::Dialog)),
        Step::RegisterPlugin(Plugin::Dialog) => if caps.supports_autostart {
            Phase::Running(Step::RegisterPlugin(Plugin::Autostart))
        } else {
            Phase::Running(Step::RunEventLoop)
        },
        Step::RegisterPlugin(Plugin::Autostart) => Phase::Running(Step::RunEventLoop),
        Step::RunEventLoop => Phase::Finished,
    }
}

/// The phase that follows `phase` on event `e`.
///
/// Logging and the report of the data directory never fail. The launch
/// arguments lead to `MinimizeWindow` exactly when they hold the minimized
/// flag. Minimizing is never fatal: a missing window or a failed request leads
/// on as success does. On any other step,
/// `Done` leads on, `Failed` aborts, and an unrelated event changes nothing.
/// `Finished` and `Aborted` are final.
pub open spec fn next_phase(caps: PlatformCapabilities, phase: Phase, e: Event) -> Phase {
    match phase {
        Phase::Running(s) => {
            if s is ReadLaunchArgs {
                match e {
                    Event::LaunchArgs(args) => if contains_minimized_flag(args@) {
                        Phase::Running(Step::MinimizeWindow)
                    } else {
                        phase_after(caps, s)
                    },
                    _ => phase_after(caps, s),
                }
            } else if !is_fatal_step(s) {
                phase_after(caps, s)
            } else {
                match e {
                    Event::Done => phase_after(caps, s),
                    Event::Failed => Phase::Aborted(s),
                    _ => phase,
                }
            }
        },
        _ => phase,
    }
}

/// The state that follows `b` on event `e`.
pub open spec fn next_state(b: Bootstrap, e: Event) -> Bootstrap {
    Bootstrap {
        caps: b.caps,
        phase: next_phase(b.caps, b.phase, e),
        logging_ready: b.logging_ready || b.phase == Phase::Running(Step::InitLogging),
    }
}

/// The state reached from `b` after the events `es`, in order.
pub open spec fn run_events(b: Bootstrap, es: Seq<Event>) -> Bootstrap
    decreases es.len(),
{
    if es.len() == 0 {
        b
    } else {
        next_state(run_events(b, es.drop_last()), es.last())
    }
}

/// The state at process start.
pub open spec fn initial_state(caps: PlatformCapabilities) -> Bootstrap {
    Bootstrap { caps, phase: Phase::Running(Step::InitLogging), logging_ready: false }
}

/// The request that a phase makes of the host.
pub open spec fn action_of(phase: Phase) -> Action {
    match phase {
        Phase::Running(s) => Action::Perform(s),
        Phase::Finished => Action::Exit,
        Phase::Aborted(s) => Action::Abort(s),
    }
}

/// Phases in which the host writes a diagnostic record: the data directory,
/// a minimized start, and a fatal failure.
pub open spec fn emits_diagnostic(phase: Phase) -> bool {
    ||| phase == Phase::Running(Step::ReportDataDir)
    ||| phase == Phase::Running(Step::MinimizeWindow)
    ||| phase is Aborted
}

impl Bootstrap {
    /// The sequence at process start, on a platform with the features `caps`.
    pub fn new(caps: PlatformCapabilities) -> (r: Bootstrap)
        ensures
            r == initial_state(caps),
    {
        Bootstrap { caps, phase: Phase::Running(Step::InitLogging), logging_ready: false }
    }

    /// What the host is to do now.
    pub fn action(&self) -> (r: Action)
        ensures
            r == action_of(self.phase),
    {
        match self.phase {
            Phase::Running(s) => Action::Perform(s),
            Phase::Finished => Action::Exit,
            Phase::Aborted(s) => Action::Abort(s),
        }
    }

    /// Records the outcome of the current step and moves on.
    pub fn advance(&mut self, e: Event)
        ensures
            *final(self) == next_state(*old(self), e),
    {
        let was_logging = match self.phase {
            Phase::Running(Step::InitLogging) => true,
            _ => false,
        };
        let next = match self.phase {
            Phase::Running(s) => match s {
                Step::ReadLaunchArgs => match e {
                    Event::LaunchArgs(args) => if has_minimized_flag(args.as_slice()) {
                        Phase::Running(Step::MinimizeWindow)
                    } else {
                        Self::phase_after(self.caps, s)
                    },
                    _ => Self::phase_after(self.caps, s),
                },
                Step::InitLogging | Step::ReportDataDir | Step::MinimizeWindow => Self::phase_after(
                    self.caps,
                    s,
                ),
                _ => match e {
                    Event::Done => Self::phase_after(self.caps, s),
                    Event::Failed => Phase::Aborted(s),
                    _ => self.phase,
                },
            },
            _ => self.phase,
        };
        self.phase = next;
        self.logging_ready = self.logging_ready || was_logging;
    }

    /// What follows step `s` when it succeeds.
    fn phase_after(caps: PlatformCapabilities, s: Step) -> (r: Phase)
        ensures
            r == phase_after(caps, s),
    {
        match s {
            Step::InitLogging => Phase::Running(Step::RegisterPlugin(Plugin::Os)),
            Step::RegisterPlugin(Plugin::Os) => Phase::Running(Step::ResolveDataDir),
            Step::ResolveDataDir => Phase::Running(Step::CreateDataDir),
            Step::CreateDataDir => Phase::Running(Step::ReportDataDir),
            Step::ReportDataDir => if caps.supports_minimized_launch {
                Phase::Running(Step::ReadLaunchArgs)
            } else {
                Phase::Running(Step::RegisterPlugin(Plugin::Notification))
            },
            Step::ReadLaunchArgs | Step::MinimizeWindow => Phase::Running(
                Step::RegisterPlugin(Plugin::Notification),
            ),
            Step::RegisterPlugin(Plugin::Notification) => Phase::Running(
                Step::RegisterPlugin(Plugin::Opener),
            ),
            Step::RegisterPlugin(Plugin::Opener) => Phase::Running(
                Step::RegisterPlugin(Plugin::Dialog),
            ),
            Step::RegisterPlugin(Plugin::Dialog) => if caps.supports_autostart {
                Phase::Running(Step::RegisterPlugin(Plugin::Autostart))
            } else {
                Phase::Running(Step::RunEventLoop)
            },
            Step::RegisterPlugin(Plugin::Autostart) => Phase::Running(Step::RunEventLoop),
            Step::RunEventLoop => Phase::Finished,
        }
    }
}

/// A phase that a platform with the features `caps` may ever be in: the
/// launch-argument steps only where minimized launch is supported, the
/// autostart registration only where autostart is.
pub open spec fn allowed_on(caps: PlatformCapabilities, phase: Phase) -> bool {
    &&& !caps.supports_minimized_launch ==> phase != Phase::Running(Step::ReadLaunchArgs)
    &&& !caps.supports_minimized_launch ==> phase != Phase::Running(Step::MinimizeWindow)
    &&& !caps.supports_autostart ==> phase != Phase::Running(
        Step::RegisterPlugin(Plugin::Autostart),
    )
    &&& !caps.supports_autostart ==> phase != Phase::Aborted(Step::RegisterPlugin(Plugin::Autostart))
}

/// Logging is set up before any diagnostic is written: in every state reached
/// from the start, a phase that writes a diagnostic finds the log sink ready.
pub proof fn lemma_logging_precedes_diagnostics(caps: PlatformCapabilities, es: Seq<Event>)
    ensures
        emits_diagnostic(run_events(initial_state(caps), es).phase) ==> run_events(
            initial_state(caps),
            es,
        ).logging_ready,
{
    lemma_logging_ready_after_start(caps, es);
}

/// Outside its first phase, the sequence has the log sink ready.
proof fn lemma_logging_ready_after_start(caps: PlatformCapabilities, es: Seq<Event>)
    ensures
        run_events(initial_state(caps), es).phase != Phase::Running(Step::InitLogging)
            ==> run_events(initial_state(caps), es).logging_ready,
    decreases es.len(),
{
    if es.len() > 0 {
        lemma_logging_ready_after_start(caps, es.drop_last());
    }
}

/// A fatal failure ends the sequence: once a fatal step (a plugin
/// registration among them) has failed, no later event leads to any other
/// step, so the steps after it never run.
pub proof fn lemma_fatal_failure_is_final(b: Bootstrap, s: Step, es: Seq<Event>)
    requires
        b.phase == Phase::Running(s),
        is_fatal_step(s),
    ensures
        run_events(next_state(b, Event::Failed), es).phase == Phase::Aborted(s),
        action_of(run_events(next_state(b, Event::Failed), es).phase) == Action::Abort(s),
    decreases es.len(),
{
    if es.len() > 0 {
        lemma_fatal_failure_is_final(b, s, es.drop_last());
    }
}

/// Platform gating: whatever the events, including any launch arguments, a
/// platform without minimized launch never reads the arguments nor minimizes,
/// and one without autostart never registers it.
pub proof fn lemma_platform_gating(caps: PlatformCapabilities, es: Seq<Event>)
    ensures
        run_events(initial_state(caps), es).caps == caps,
        allowed_on(caps, run_events(initial_state(caps), es).phase),
    decreases es.len(),
{
    if es.len() > 0 {
        lemma_platform_gating(caps, es.drop_last());
    }
}

/// A missing main window does not change the course of startup: it leads to
/// the same next phase as a successful minimize, the first plugin
/// registration, and never to an abort.
pub proof fn lemma_missing_window_tolerated(b: Bootstrap)
    requires
        b.phase == Phase::Running(Step::MinimizeWindow),
    ensures
        next_state(b, Event::WindowMissing) == next_state(b, Event::Done),
        next_state(b, Event::WindowMissing).phase == first_feature_plugin(),
        next_state(b, Event::WindowMissing).phase !is Aborted,
{
}

} // verus!
