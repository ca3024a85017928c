use iris_files::bootstrap::{Action, Bootstrap, Event, Phase, Plugin, Step};
use iris_files::platform::{PlatformCapabilities, TargetOs};

fn desktop() -> PlatformCapabilities {
    PlatformCapabilities::for_os(TargetOs::Linux)
}

fn mobile() -> PlatformCapabilities {
    PlatformCapabilities::for_os(TargetOs::Android)
}

fn args(items: &[&str]) -> Vec<String> {
    items.iter().map(|s| s.to_string()).collect()
}

/// Runs the sequence to its end, answering every step with success, the
/// launch arguments with `launch`, and returning the steps performed.
fn run_all(caps: PlatformCapabilities, launch: &[&str]) -> (Vec<Step>, Bootstrap) {
    let mut b = Bootstrap::new(caps);
    let mut steps = Vec::new();
    while let Action::Perform(step) = b.action() {
        steps.push(step);
        let e = match step {
            Step::ReadLaunchArgs => Event::LaunchArgs(args(launch)),
            _ => Event::Done,
        };
        b.advance(e);
    }
    (steps, b)
}

#[test]
fn desktop_sequence_without_flag() {
    let (steps, b) = run_all(desktop(), &["/usr/bin/iris"]);
    assert_eq!(
        steps,
        vec![
            Step::InitLogging,
            Step::RegisterPlugin(Plugin::Os),
            Step::ResolveDataDir,
            Step::CreateDataDir,
            Step::ReportDataDir,
            Step::ReadLaunchArgs,
            Step::RegisterPlugin(Plugin::Notification),
            Step::RegisterPlugin(Plugin::Opener),
            Step::RegisterPlugin(Plugin::Dialog),
            Step::RegisterPlugin(Plugin::Autostart),
            Step::RunEventLoop,
        ]
    );
    assert_eq!(b.phase, Phase::Finished);
    assert_eq!(b.action(), Action::Exit);
}

#[test]
fn desktop_sequence_with_flag_minimizes() {
    let (steps, _) = run_all(desktop(), &["/usr/bin/iris", "--minimized"]);
    assert_eq!(steps[5], Step::ReadLaunchArgs);
    assert_eq!(steps[6], Step::MinimizeWindow);
    assert_eq!(steps[7], Step::RegisterPlugin(Plugin::Notification));
    assert_eq!(steps.len(), 12);
}

#[test]
fn non_desktop_skips_gated_steps_whatever_the_arguments() {
    let (steps, b) = run_all(mobile(), &["--minimized"]);
    assert_eq!(
        steps,
        vec![
            Step::InitLogging,
            Step::RegisterPlugin(Plugin::Os),
            Step::ResolveDataDir,
            Step::CreateDataDir,
            Step::ReportDataDir,
            Step::RegisterPlugin(Plugin::Notification),
            Step::RegisterPlugin(Plugin::Opener),
            Step::RegisterPlugin(Plugin::Dialog),
            Step::RunEventLoop,
        ]
    );
    assert_eq!(b.phase, Phase::Finished);
}

#[test]
fn logging_ready_before_first_diagnostic() {
    let mut b = Bootstrap::new(desktop());
    assert_eq!(b.action(), Action::Perform(Step::InitLogging));
    assert!(!b.logging_ready);
    while let Action::Perform(step) = b.action() {
        if step == Step::ReportDataDir {
            assert!(b.logging_ready);
            return;
        }
        b.advance(Event::Done);
    }
    panic!("the data directory was never reported");
}

#[test]
fn logging_setup_never_fails() {
    let mut b = Bootstrap::new(desktop());
    b.advance(Event::Failed);
    assert_eq!(b.phase, Phase::Running(Step::RegisterPlugin(Plugin::Os)));
    assert!(b.logging_ready);
}

#[test]
fn abort_message_from_failed_step() {
    let mut b = Bootstrap::new(desktop());
    b.advance(Event::Done);
    b.advance(Event::Done);
    b.advance(Event::Failed);
    assert_eq!(b.action(), Action::Abort(Step::ResolveDataDir));
    assert_eq!(Step::ResolveDataDir.failure_message(), "failed to get app data dir");
}

#[test]
fn failed_data_dir_creation_aborts() {
    let mut b = Bootstrap::new(desktop());
    for _ in 0..3 {
        b.advance(Event::Done);
    }
    assert_eq!(b.action(), Action::Perform(Step::CreateDataDir));
    b.advance(Event::Failed);
    assert_eq!(b.action(), Action::Abort(Step::CreateDataDir));
    assert_eq!(Step::CreateDataDir.failure_message(), "failed to create data dir");
}

#[test]
fn failed_plugin_registration_stops_later_ones() {
    for failing in [Plugin::Notification, Plugin::Opener, Plugin::Dialog, Plugin::Autostart] {
        let mut b = Bootstrap::new(desktop());
        let mut performed = Vec::new();
        while let Action::Perform(step) = b.action() {
            performed.push(step);
            let e = if step == Step::RegisterPlugin(failing) {
                Event::Failed
            } else if step == Step::ReadLaunchArgs {
                Event::LaunchArgs(Vec::new())
            } else {
                Event::Done
            };
            b.advance(e);
        }
        assert_eq!(b.phase, Phase::Aborted(Step::RegisterPlugin(failing)));
        assert_eq!(*performed.last().unwrap(), Step::RegisterPlugin(failing));
        assert!(!performed.contains(&Step::RunEventLoop));
        b.advance(Event::Done);
        b.advance(Event::Failed);
        b.advance(Event::LaunchArgs(args(&["--minimized"])));
        assert_eq!(b.action(), Action::Abort(Step::RegisterPlugin(failing)));
    }
}

#[test]
fn failure_messages_name_the_plugin() {
    assert_eq!(
        Step::RegisterPlugin(Plugin::Notification).failure_message(),
        "failed to register the notification plugin"
    );
    assert_eq!(
        Step::RegisterPlugin(Plugin::Autostart).failure_message(),
        "failed to register the autostart plugin"
    );
    assert_eq!(Step::RunEventLoop.failure_message(), "error while running the application");
}

#[test]
fn missing_window_is_tolerated() {
    let mut b = Bootstrap::new(desktop());
    for _ in 0..5 {
        b.advance(Event::Done);
    }
    b.advance(Event::LaunchArgs(args(&["--minimized"])));
    assert_eq!(b.action(), Action::Perform(Step::MinimizeWindow));
    b.advance(Event::WindowMissing);
    assert_eq!(b.action(), Action::Perform(Step::RegisterPlugin(Plugin::Notification)));
}

#[test]
fn failed_minimize_is_tolerated() {
    let mut b = Bootstrap::new(desktop());
    for _ in 0..5 {
        b.advance(Event::Done);
    }
    b.advance(Event::LaunchArgs(args(&["--minimized"])));
    b.advance(Event::Failed);
    assert_eq!(b.phase, Phase::Running(Step::RegisterPlugin(Plugin::Notification)));
}

#[test]
fn unrelated_event_leaves_fatal_step_due() {
    let mut b = Bootstrap::new(desktop());
    b.advance(Event::Done);
    b.advance(Event::WindowMissing);
    assert_eq!(b.phase, Phase::Running(Step::RegisterPlugin(Plugin::Os)));
}

#[test]
fn event_loop_failure_aborts() {
    let mut b = Bootstrap::new(mobile());
    while let Action::Perform(step) = b.action() {
        b.advance(if step == Step::RunEventLoop { Event::Failed } else { Event::Done });
    }
    assert_eq!(b.action(), Action::Abort(Step::RunEventLoop));
}
