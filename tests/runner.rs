use bevy_psx::{AppExit, LogLevel, PSXLogPlugin, PSXRunnerPlugin, RunnerAction, RunnerEvent, RunnerState};

#[test]
fn runner_waits_sets_up_and_loops_until_exit() {
    let runner = PSXRunnerPlugin;
    let (s, a) = runner.start();
    assert_eq!((s, a), (RunnerState::AwaitingPlugins, RunnerAction::PollPlugins));
    let (s, a) = runner.step(s, RunnerEvent::PluginsAdding);
    assert_eq!(a, RunnerAction::PollPlugins);
    let (s, a) = runner.step(s, RunnerEvent::PluginsReady);
    assert_eq!(a, RunnerAction::FinishSetup);
    let (s, a) = runner.step(s, RunnerEvent::SetupDone);
    assert_eq!(a, RunnerAction::Update);
    let (s, a) = runner.step(s, RunnerEvent::Updated(None));
    assert_eq!(a, RunnerAction::Render);
    let (s, a) = runner.step(s, RunnerEvent::Rendered);
    assert_eq!(a, RunnerAction::Update);
    let (s, a) = runner.step(s, RunnerEvent::Updated(Some(AppExit::Error(3))));
    assert_eq!(s, RunnerState::Exited(AppExit::Error(3)));
    assert_eq!(a, RunnerAction::Exit(AppExit::Error(3)));
    let (s2, a2) = runner.step(s, RunnerEvent::Rendered);
    assert_eq!((s2, a2), (s, a));
}

#[test]
fn runner_repeats_action_on_unexpected_event() {
    let runner = PSXRunnerPlugin;
    let (s, a) = runner.step(RunnerState::SettingUp, RunnerEvent::Rendered);
    assert_eq!((s, a), (RunnerState::SettingUp, RunnerAction::FinishSetup));
    let (s, a) = runner.step(RunnerState::Updating, RunnerEvent::Updated(Some(AppExit::Success)));
    assert_eq!((s, a), (RunnerState::Exited(AppExit::Success), RunnerAction::Exit(AppExit::Success)));
}

#[test]
fn log_filter_and_prefixes() {
    let log = PSXLogPlugin;
    assert_eq!(log.max_level(), LogLevel::Info);
    assert!(log.enabled(LogLevel::Error));
    assert!(log.enabled(LogLevel::Warn));
    assert!(log.enabled(LogLevel::Info));
    assert!(!log.enabled(LogLevel::Debug));
    assert!(!log.enabled(LogLevel::Trace));
    assert_eq!(log.prefix(LogLevel::Error), "[ERROR]");
    assert_eq!(log.prefix(LogLevel::Warn), "[WARN] ");
    assert_eq!(log.prefix(LogLevel::Info), "[INFO] ");
    assert_eq!(log.prefix(LogLevel::Debug), "[DEBUG]");
    assert_eq!(log.prefix(LogLevel::Trace), "[TRACE]");
}
