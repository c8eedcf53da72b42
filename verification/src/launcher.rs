//! The orchestrator: a linear state machine that sequences logging setup,
//! privilege elevation, script location and execution.
//!
//! The machine itself touches nothing. In each state it names the one action
//! it is waiting for; the caller performs it and reports the outcome as an
//! event; the machine moves on or fails. A failure is final: no later event
//! changes it, and the only action left is to exit.

use vstd::prelude::*;
use crate::error::{
    report_lines, ExecError, Failure, FailureView, LaunchError, LaunchErrorView, LoggerInitError,
    LoggerInitErrorView, PathError, PathErrorView,
};
use crate::locator::{candidate_for, confirm_script, confirmed, script_candidate, ScriptPath};
use crate::model::{
    Action, ActionView, Event, EventView, LauncherConfig, LogRecord, LogRecordView,
};
use crate::privilege::{elevation_granted, elevation_outcome, PrivilegeError, SUPERUSER_ID};

verus! {

/// Where a run stands.
#[derive(Clone, Debug, PartialEq, Eq)]
pub enum LauncherState {
    Start,
    LoggingReady,
    /// The process is the superuser. `candidate` is where the script will be
    /// looked for, once the executable's own path is known.
    PrivilegeElevated { candidate: Option<ScriptPath> },
    ScriptLocated { script: ScriptPath },
    ScriptExecuted,
    Done,
    Failed { error: LaunchError },
}

/// The mathematical value of a [`LauncherState`].
pub enum StateView {
    Start,
    LoggingReady,
    PrivilegeElevated { candidate: Option<Seq<char>> },
    ScriptLocated { script: Seq<char> },
    ScriptExecuted,
    Done,
    Failed { error: LaunchErrorView },
}

impl View for LauncherState {
    type V = StateView;

    open spec fn view(&self) -> StateView {
        match *self {
            LauncherState::Start => StateView::Start,
            LauncherState::LoggingReady => StateView::LoggingReady,
            LauncherState::PrivilegeElevated { candidate } => StateView::PrivilegeElevated {
                candidate: match candidate {
                    Some(path) => Some(path@),
                    None => None,
                },
            },
            LauncherState::ScriptLocated { script } => StateView::ScriptLocated { script: script@ },
            LauncherState::ScriptExecuted => StateView::ScriptExecuted,
            LauncherState::Done => StateView::Done,
            LauncherState::Failed { error } => StateView::Failed { error: error@ },
        }
    }
}

/// A failure with nothing beneath it.
pub open spec fn bare(failure: FailureView) -> StateView {
    StateView::Failed { error: LaunchErrorView { failure, causes: Seq::empty() } }
}

/// A failure that wraps what the outside reported.
pub open spec fn wrapped(failure: FailureView, causes: Seq<Seq<char>>) -> StateView {
    StateView::Failed { error: LaunchErrorView { failure, causes } }
}

/// The logger failure that belongs to a configuration.
pub open spec fn logger_failure(config: Option<Seq<char>>) -> FailureView {
    match config {
        Some(path) => FailureView::Logger(LoggerInitErrorView::ConfigFile { path }),
        None => FailureView::Logger(LoggerInitErrorView::DefaultSink),
    }
}

/// Whether a run in this state is over.
pub open spec fn is_terminal(state: StateView) -> bool {
    state is Done || state is Failed
}

/// The process exit code of a run that is over: 0 where the script was
/// invoked, 1 where anything before that failed.
pub open spec fn exit_status(state: StateView) -> Option<i32> {
    match state {
        StateView::Done => Some(0i32),
        StateView::Failed { .. } => Some(1i32),
        _ => None,
    }
}

/// The action that a state waits for.
pub open spec fn pending_action(config: Option<Seq<char>>, state: StateView) -> ActionView {
    match state {
        StateView::Start => ActionView::InitLogger { config_path: config },
        StateView::LoggingReady => ActionView::Elevate { uid: SUPERUSER_ID },
        StateView::PrivilegeElevated { candidate: None } => ActionView::QuerySelfPath,
        StateView::PrivilegeElevated { candidate: Some(path) } => ActionView::ProbeScript { path },
        StateView::ScriptLocated { script } => ActionView::Spawn { path: script },
        StateView::ScriptExecuted => ActionView::Conclude,
        StateView::Done => ActionView::Exit { code: 0 },
        StateView::Failed { .. } => ActionView::Exit { code: 1 },
    }
}

/// The transition function. An event that does not answer the pending action
/// leaves the state as it is.
pub open spec fn next_state(config: Option<Seq<char>>, state: StateView, event: EventView)
    -> StateView {
    match (state, event) {
        (StateView::Start, EventView::LoggerInitialized { outcome: Ok(_) }) =>
            StateView::LoggingReady,
        (StateView::Start, EventView::LoggerInitialized { outcome: Err(causes) }) => wrapped(
            logger_failure(config),
            causes,
        ),
        (StateView::LoggingReady, EventView::ElevationAttempted { status }) => {
            if elevation_granted(status) {
                StateView::PrivilegeElevated { candidate: None }
            } else {
                bare(FailureView::Privilege(PrivilegeError))
            }
        },
        (
            StateView::PrivilegeElevated { candidate: None },
            EventView::SelfPathReported { outcome: Ok(exe) },
        ) => match candidate_for(exe) {
            Ok(path) => StateView::PrivilegeElevated { candidate: Some(path) },
            Err(e) => bare(FailureView::Path(e)),
        },
        (
            StateView::PrivilegeElevated { candidate: None },
            EventView::SelfPathReported { outcome: Err(causes) },
        ) => wrapped(FailureView::Path(PathErrorView::SelfPathUnavailable), causes),
        (
            StateView::PrivilegeElevated { candidate: Some(path) },
            EventView::ScriptProbed { exists },
        ) => match confirmed(path, exists) {
            Ok(script) => StateView::ScriptLocated { script },
            Err(e) => bare(FailureView::Path(e)),
        },
        (StateView::ScriptLocated { .. }, EventView::SpawnCompleted { outcome: Ok(_) }) =>
            StateView::ScriptExecuted,
        (StateView::ScriptLocated { .. }, EventView::SpawnCompleted { outcome: Err(causes) }) =>
            wrapped(FailureView::Exec(ExecError::SpawnFailed), causes),
        (StateView::ScriptExecuted, EventView::Concluded) => StateView::Done,
        _ => state,
    }
}

/// What is logged as an event is taken in: the configuration once the
/// process is privileged, the child's result once it has run, the success
/// marker at the end, and the report of a failure as it occurs.
pub open spec fn record_for(config: Option<Seq<char>>, state: StateView, event: EventView)
    -> Option<LogRecordView> {
    match next_state(config, state, event) {
        StateView::Failed { error } => if state is Failed {
            None
        } else {
            Some(LogRecordView::Failure { lines: report_lines(error) })
        },
        StateView::PrivilegeElevated { candidate: None } => if state is LoggingReady {
            Some(LogRecordView::Config { config })
        } else {
            None
        },
        StateView::ScriptExecuted => match (state, event) {
            (StateView::ScriptLocated { .. }, EventView::SpawnCompleted { outcome: Ok(result) }) =>
                Some(LogRecordView::Child { result }),
            _ => None,
        },
        StateView::Done => if state is ScriptExecuted {
            Some(LogRecordView::Completed)
        } else {
            None
        },
        _ => None,
    }
}

/// The mathematical value of an optional record.
pub open spec fn record_view(record: Option<LogRecord>) -> Option<LogRecordView> {
    match record {
        Some(r) => Some(r@),
        None => None,
    }
}

/// A run of the launcher: its configuration and where it stands.
#[derive(Debug, PartialEq, Eq)]
pub struct Launcher {
    config: LauncherConfig,
    state: LauncherState,
}

/// The mathematical value of a [`Launcher`].
pub struct LauncherView {
    pub config: Option<Seq<char>>,
    pub state: StateView,
}

impl View for Launcher {
    type V = LauncherView;

    closed spec fn view(&self) -> LauncherView {
        LauncherView { config: self.config@, state: self.state@ }
    }
}

fn copy_of_path(path: &Option<String>) -> (res: Option<String>)
    ensures
        res == *path,
{
    match path {
        Some(text) => Some(text.clone()),
        None => None,
    }
}

fn fail(config: LauncherConfig, error: LaunchError) -> (res: (Launcher, Option<LogRecord>))
    ensures
        res.0@ == (LauncherView { config: config@, state: StateView::Failed { error: error@ } }),
        record_view(res.1) == Some(LogRecordView::Failure { lines: report_lines(error@) }),
{
    let lines = error.report();
    (Launcher { config, state: LauncherState::Failed { error } }, Some(LogRecord::Failure { lines }))
}

impl Launcher {
    /// A fresh run. Every run starts here, whatever ran before.
    pub fn new(config: LauncherConfig) -> (res: Launcher)
        ensures
            res@ == (LauncherView { config: config@, state: StateView::Start }),
    {
        Launcher { config, state: LauncherState::Start }
    }

    /// The configuration of this run.
    pub fn config(&self) -> (res: &LauncherConfig)
        ensures
            res@ == self@.config,
    {
        &self.config
    }

    /// Where the run stands.
    pub fn state(&self) -> (res: &LauncherState)
        ensures
            res@ == self@.state,
    {
        &self.state
    }

    /// Whether the run is over.
    pub fn is_finished(&self) -> (res: bool)
        ensures
            res == is_terminal(self@.state),
    {
        match &self.state {
            LauncherState::Done => true,
            LauncherState::Failed { .. } => true,
            _ => false,
        }
    }

    /// The exit code, once the run is over.
    pub fn exit_code(&self) -> (res: Option<i32>)
        ensures
            res == exit_status(self@.state),
    {
        match &self.state {
            LauncherState::Done => Some(0),
            LauncherState::Failed { .. } => Some(1),
            _ => None,
        }
    }

    /// The action that the run waits for.
    pub fn pending(&self) -> (res: Action)
        ensures
            res@ == pending_action(self@.config, self@.state),
    {
        match &self.state {
            LauncherState::Start => Action::InitLogger {
                config_path: copy_of_path(&self.config.log_config_path),
            },
            LauncherState::LoggingReady => Action::Elevate { uid: SUPERUSER_ID },
            LauncherState::PrivilegeElevated { candidate: None } => Action::QuerySelfPath,
            LauncherState::PrivilegeElevated { candidate: Some(path) } => Action::ProbeScript {
                path: path.path.clone(),
            },
            LauncherState::ScriptLocated { script } => Action::Spawn { path: script.path.clone() },
            LauncherState::ScriptExecuted => Action::Conclude,
            LauncherState::Done => Action::Exit { code: 0 },
            LauncherState::Failed { .. } => Action::Exit { code: 1 },
        }
    }

    /// Takes in the outcome of an action: moves to the next state, or to
    /// `Failed`, and says what is to be logged on the way.
    pub fn advance(self, event: Event) -> (res: (Launcher, Option<LogRecord>))
        ensures
            res.0@.config == self@.config,
            res.0@.state == next_state(self@.config, self@.state, event@),
            record_view(res.1) == record_for(self@.config, self@.state, event@),
    {
        let config = self.config;
        match (self.state, event) {
            (LauncherState::Start, Event::LoggerInitialized { outcome: Ok(_) }) => (
                Launcher { config, state: LauncherState::LoggingReady },
                None,
            ),
            (LauncherState::Start, Event::LoggerInitialized { outcome: Err(causes) }) => {
                let failure = match copy_of_path(&config.log_config_path) {
                    Some(path) => Failure::Logger(LoggerInitError::ConfigFile { path }),
                    None => Failure::Logger(LoggerInitError::DefaultSink),
                };
                fail(config, LaunchError::with_causes(failure, causes))
            },
            (LauncherState::LoggingReady, Event::ElevationAttempted { status }) => {
                match elevation_outcome(status) {
                    Ok(_) => {
                        let shown = LauncherConfig {
                            log_config_path: copy_of_path(&config.log_config_path),
                        };
                        (
                            Launcher {
                                config,
                                state: LauncherState::PrivilegeElevated { candidate: None },
                            },
                            Some(LogRecord::Config { config: shown }),
                        )
                    },
                    Err(e) => fail(config, LaunchError::new(Failure::Privilege(e))),
                }
            },
            (
                LauncherState::PrivilegeElevated { candidate: None },
                Event::SelfPathReported { outcome: Ok(exe) },
            ) => {
                match script_candidate(exe.as_str()) {
                    Ok(path) => (
                        Launcher {
                            config,
                            state: LauncherState::PrivilegeElevated { candidate: Some(path) },
                        },
                        None,
                    ),
                    Err(e) => fail(config, LaunchError::new(Failure::Path(e))),
                }
            },
            (
                LauncherState::PrivilegeElevated { candidate: None },
                Event::SelfPathReported { outcome: Err(causes) },
            ) => fail(
                config,
                LaunchError::with_causes(Failure::Path(PathError::SelfPathUnavailable), causes),
            ),
            (
                LauncherState::PrivilegeElevated { candidate: Some(path) },
                Event::ScriptProbed { exists },
            ) => {
                match confirm_script(path, exists) {
                    Ok(script) => (
                        Launcher { config, state: LauncherState::ScriptLocated { script } },
                        None,
                    ),
                    Err(e) => fail(config, LaunchError::new(Failure::Path(e))),
                }
            },
            (LauncherState::ScriptLocated { .. }, Event::SpawnCompleted { outcome: Ok(result) }) => (
                Launcher { config, state: LauncherState::ScriptExecuted },
                Some(LogRecord::Child { result }),
            ),
            (LauncherState::ScriptLocated { .. }, Event::SpawnCompleted { outcome: Err(causes) }) => {
                fail(config, LaunchError::with_causes(Failure::Exec(ExecError::SpawnFailed), causes))
            },
            (LauncherState::ScriptExecuted, Event::Concluded) => (
                Launcher { config, state: LauncherState::Done },
                Some(LogRecord::Completed),
            ),
            (state, _) => (Launcher { config, state }, None),
        }
    }
}

} // verus!
