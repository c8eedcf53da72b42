//! The values that pass between the launcher and the world around it: its
//! configuration, what it asks to have done, what is reported back, and what
//! it wants logged.

use vstd::prelude::*;

verus! {

/// The launcher's configuration, fixed at startup.
#[derive(Clone, Debug, PartialEq, Eq)]
pub struct LauncherConfig {
    /// The logging configuration file, if one was given; without it the
    /// default logger is used.
    pub log_config_path: Option<String>,
}

impl View for LauncherConfig {
    type V = Option<Seq<char>>;

    open spec fn view(&self) -> Option<Seq<char>> {
        match self.log_config_path {
            Some(path) => Some(path@),
            None => None,
        }
    }
}

/// What a finished child process left behind.
#[derive(Clone, Debug, PartialEq, Eq)]
pub struct ExecutionResult {
    pub stdout: Vec<u8>,
    pub stderr: Vec<u8>,
    /// The child's exit code; `None` where it ended without one.
    pub status: Option<i32>,
}

/// The mathematical value of an [`ExecutionResult`].
pub struct ExecutionResultView {
    pub stdout: Seq<u8>,
    pub stderr: Seq<u8>,
    pub status: Option<i32>,
}

impl View for ExecutionResult {
    type V = ExecutionResultView;

    open spec fn view(&self) -> ExecutionResultView {
        ExecutionResultView { stdout: self.stdout@, stderr: self.stderr@, status: self.status }
    }
}

/// The severity of a log record.
#[derive(Clone, Copy, Debug, PartialEq, Eq, Structural)]
pub enum LogLevel {
    Info,
    Error,
}

/// Something the launcher wants logged.
#[derive(Clone, Debug, PartialEq, Eq)]
pub enum LogRecord {
    /// The configuration in use.
    Config { config: LauncherConfig },
    /// The child's captured output and status.
    Child { result: ExecutionResult },
    /// The success marker.
    Completed,
    /// A failure: its report, one line per element, outermost first.
    Failure { lines: Vec<String> },
}

/// The mathematical value of a [`LogRecord`].
pub enum LogRecordView {
    Config { config: Option<Seq<char>> },
    Child { result: ExecutionResultView },
    Completed,
    Failure { lines: Seq<Seq<char>> },
}

impl View for LogRecord {
    type V = LogRecordView;

    open spec fn view(&self) -> LogRecordView {
        match *self {
            LogRecord::Config { config } => LogRecordView::Config { config: config@ },
            LogRecord::Child { result } => LogRecordView::Child { result: result@ },
            LogRecord::Completed => LogRecordView::Completed,
            LogRecord::Failure { lines } => LogRecordView::Failure { lines: lines.deep_view() },
        }
    }
}

/// The severity at which a record is logged: failures as errors, the rest as
/// information.
pub open spec fn record_level(record: LogRecordView) -> LogLevel {
    match record {
        LogRecordView::Failure { .. } => LogLevel::Error,
        _ => LogLevel::Info,
    }
}

impl LogRecord {
    /// The severity at which this record is logged.
    pub fn level(&self) -> (res: LogLevel)
        ensures
            res == record_level(self@),
    {
        match self {
            LogRecord::Failure { .. } => LogLevel::Error,
            _ => LogLevel::Info,
        }
    }
}

/// What the launcher asks to have done next.
#[derive(Clone, Debug, PartialEq, Eq)]
pub enum Action {
    /// Set up logging: from the file where one is given, else the default.
    InitLogger { config_path: Option<String> },
    /// Change the process's identity to the user with this id.
    Elevate { uid: u32 },
    /// Ask the operating system for the running executable's path.
    QuerySelfPath,
    /// Check whether anything exists at this path.
    ProbeScript { path: String },
    /// Run the file at this path as a child, without arguments, to the end.
    Spawn { path: String },
    /// Nothing is left to do outside; the run can be concluded.
    Conclude,
    /// End the process with this code.
    Exit { code: i32 },
}

/// The mathematical value of an [`Action`].
pub enum ActionView {
    InitLogger { config_path: Option<Seq<char>> },
    Elevate { uid: u32 },
    QuerySelfPath,
    ProbeScript { path: Seq<char> },
    Spawn { path: Seq<char> },
    Conclude,
    Exit { code: i32 },
}

impl View for Action {
    type V = ActionView;

    open spec fn view(&self) -> ActionView {
        match *self {
            Action::InitLogger { config_path } => ActionView::InitLogger {
                config_path: match config_path {
                    Some(path) => Some(path@),
                    None => None,
                },
            },
            Action::Elevate { uid } => ActionView::Elevate { uid },
            Action::QuerySelfPath => ActionView::QuerySelfPath,
            Action::ProbeScript { path } => ActionView::ProbeScript { path: path@ },
            Action::Spawn { path } => ActionView::Spawn { path: path@ },
            Action::Conclude => ActionView::Conclude,
            Action::Exit { code } => ActionView::Exit { code },
        }
    }
}

/// What came of an action. Where the outside failed, the event carries the
/// messages of the underlying error and of its sources, outermost first.
#[derive(Debug, PartialEq, Eq)]
pub enum Event {
    LoggerInitialized { outcome: Result<(), Vec<String>> },
    /// The identity change returned this status.
    ElevationAttempted { status: i32 },
    SelfPathReported { outcome: Result<String, Vec<String>> },
    ScriptProbed { exists: bool },
    SpawnCompleted { outcome: Result<ExecutionResult, Vec<String>> },
    Concluded,
}

/// The mathematical value of an [`Event`].
pub enum EventView {
    LoggerInitialized { outcome: Result<(), Seq<Seq<char>>> },
    ElevationAttempted { status: i32 },
    SelfPathReported { outcome: Result<Seq<char>, Seq<Seq<char>>> },
    ScriptProbed { exists: bool },
    SpawnCompleted { outcome: Result<ExecutionResultView, Seq<Seq<char>>> },
    Concluded,
}

impl View for Event {
    type V = EventView;

    open spec fn view(&self) -> EventView {
        match *self {
            Event::LoggerInitialized { outcome } => EventView::LoggerInitialized {
                outcome: match outcome {
                    Ok(_) => Ok(()),
                    Err(causes) => Err(causes.deep_view()),
                },
            },
            Event::ElevationAttempted { status } => EventView::ElevationAttempted { status },
            Event::SelfPathReported { outcome } => EventView::SelfPathReported {
                outcome: match outcome {
                    Ok(path) => Ok(path@),
                    Err(causes) => Err(causes.deep_view()),
                },
            },
            Event::ScriptProbed { exists } => EventView::ScriptProbed { exists },
            Event::SpawnCompleted { outcome } => EventView::SpawnCompleted {
                outcome: match outcome {
                    Ok(result) => Ok(result@),
                    Err(causes) => Err(causes.deep_view()),
                },
            },
            Event::Concluded => EventView::Concluded,
        }
    }
}

} // verus!
