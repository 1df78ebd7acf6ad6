use vstd::prelude::*;

verus! {

/// How the application asked to stop.
#[derive(Clone, Copy, PartialEq, Eq, Debug, Structural)]
pub enum AppExit {
    Success,
    /// Failure with a nonzero process exit code.
    Error(u8),
}

/// Where the main loop stands.
#[derive(Clone, Copy, PartialEq, Eq, Debug, Structural)]
pub enum RunnerState {
    /// Plugins are still being added; setup cannot be finished yet.
    AwaitingPlugins,
    /// Plugins are in; deferred setup and Startup are to run.
    SettingUp,
    /// The update phases First, PreUpdate, Update and Last are to run.
    Updating,
    /// The render sub-pipeline is to run.
    Rendering,
    /// The loop has ended with this exit.
    Exited(AppExit),
}

/// What the host reports after carrying out the last action.
#[derive(Clone, Copy, PartialEq, Eq, Debug, Structural)]
pub enum RunnerEvent {
    PluginsAdding,
    PluginsReady,
    SetupDone,
    /// The update phases ran; carries the exit request, if one was made.
    Updated(Option<AppExit>),
    Rendered,
}

/// What the host is to do next.
#[derive(Clone, Copy, PartialEq, Eq, Debug, Structural)]
pub enum RunnerAction {
    /// Look again at whether plugins are still being added.
    PollPlugins,
    /// Finish and clean up plugins, then run Startup once.
    FinishSetup,
    /// Run First, PreUpdate, Update and Last in that order.
    Update,
    /// Run the render sub-pipeline.
    Render,
    /// Leave the loop and return this exit.
    Exit(AppExit),
}

/// The action that a state calls for.
pub open spec fn spec_action(state: RunnerState) -> RunnerAction {
    match state {
        RunnerState::AwaitingPlugins => RunnerAction::PollPlugins,
        RunnerState::SettingUp => RunnerAction::FinishSetup,
        RunnerState::Updating => RunnerAction::Update,
        RunnerState::Rendering => RunnerAction::Render,
        RunnerState::Exited(e) => RunnerAction::Exit(e),
    }
}

/// The state after `event`. An event that does not answer the state's
/// action leaves the state as it is, so that the action is asked again.
pub open spec fn spec_next(state: RunnerState, event: RunnerEvent) -> RunnerState {
    match (state, event) {
        (RunnerState::AwaitingPlugins, RunnerEvent::PluginsAdding) => RunnerState::AwaitingPlugins,
        (RunnerState::AwaitingPlugins, RunnerEvent::PluginsReady) => RunnerState::SettingUp,
        (RunnerState::SettingUp, RunnerEvent::SetupDone) => RunnerState::Updating,
        (RunnerState::Updating, RunnerEvent::Updated(Some(e))) => RunnerState::Exited(e),
        (RunnerState::Updating, RunnerEvent::Updated(None)) => RunnerState::Rendering,
        (RunnerState::Rendering, RunnerEvent::Rendered) => RunnerState::Updating,
        _ => state,
    }
}

fn action_of(state: RunnerState) -> (r: RunnerAction)
    ensures
        r == spec_action(state),
{
    match state {
        RunnerState::AwaitingPlugins => RunnerAction::PollPlugins,
        RunnerState::SettingUp => RunnerAction::FinishSetup,
        RunnerState::Updating => RunnerAction::Update,
        RunnerState::Rendering => RunnerAction::Render,
        RunnerState::Exited(e) => RunnerAction::Exit(e),
    }
}

/// The main loop's decisions: wait for plugins, set up once, then alternate
/// update phases and rendering until an exit is requested after an update.
#[derive(Clone, Copy, PartialEq, Eq, Debug, Default, Structural)]
pub struct PSXRunnerPlugin;

impl PSXRunnerPlugin {
    /// The loop's first state and action.
    pub fn start(&self) -> (r: (RunnerState, RunnerAction))
        ensures
            r == (RunnerState::AwaitingPlugins, RunnerAction::PollPlugins),
    {
        (RunnerState::AwaitingPlugins, RunnerAction::PollPlugins)
    }

    /// Moves the loop on by the host's report `event`: returns the next
    /// state and the action it calls for.
    pub fn step(&self, state: RunnerState, event: RunnerEvent) -> (r: (RunnerState, RunnerAction))
        ensures
            r.0 == spec_next(state, event),
            r.1 == spec_action(r.0),
    {
        let next = match (state, event) {
            (RunnerState::AwaitingPlugins, RunnerEvent::PluginsAdding) => RunnerState::AwaitingPlugins,
            (RunnerState::AwaitingPlugins, RunnerEvent::PluginsReady) => RunnerState::SettingUp,
            (RunnerState::SettingUp, RunnerEvent::SetupDone) => RunnerState::Updating,
            (RunnerState::Updating, RunnerEvent::Updated(Some(e))) => RunnerState::Exited(e),
            (RunnerState::Updating, RunnerEvent::Updated(None)) => RunnerState::Rendering,
            (RunnerState::Rendering, RunnerEvent::Rendered) => RunnerState::Updating,
            _ => state,
        };
        (next, action_of(next))
    }
}

/// Once exited, the loop stays exited with the same exit.
pub proof fn lemma_exit_is_final(e: AppExit, event: RunnerEvent)
    ensures
        spec_next(RunnerState::Exited(e), event) == RunnerState::Exited(e),
{
}

/// Every update without an exit request is followed by rendering, and every
/// rendering by the next update.
pub proof fn lemma_update_render_alternate()
    ensures
        spec_action(spec_next(RunnerState::Updating, RunnerEvent::Updated(None))) == RunnerAction::Render,
        spec_action(spec_next(RunnerState::Rendering, RunnerEvent::Rendered)) == RunnerAction::Update,
{
}

} // verus!
