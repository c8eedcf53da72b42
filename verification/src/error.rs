//! The launcher's failures, their messages and their causal chains.

use vstd::prelude::*;
use crate::paths::{path_debug, quoted};
use crate::privilege::PrivilegeError;

verus! {

/// The logger could not be set up.
#[derive(Clone, Debug, PartialEq, Eq)]
pub enum LoggerInitError {
    /// The logging configuration file at `path` was missing or malformed.
    ConfigFile { path: String },
    /// The default console logger could not be installed.
    DefaultSink,
}

/// The mathematical value of a [`LoggerInitError`].
pub enum LoggerInitErrorView {
    ConfigFile { path: Seq<char> },
    DefaultSink,
}

impl View for LoggerInitError {
    type V = LoggerInitErrorView;

    open spec fn view(&self) -> LoggerInitErrorView {
        match *self {
            LoggerInitError::ConfigFile { path } => LoggerInitErrorView::ConfigFile { path: path@ },
            LoggerInitError::DefaultSink => LoggerInitErrorView::DefaultSink,
        }
    }
}

/// The companion script could not be located.
#[derive(Clone, Debug, PartialEq, Eq)]
pub enum PathError {
    /// The operating system could not report the running executable's path.
    SelfPathUnavailable,
    /// The executable's path has no containing directory.
    NoParentDirectory,
    /// Nothing exists at `path`, where the script was looked for.
    ScriptNotFound { path: String },
}

/// The mathematical value of a [`PathError`].
pub enum PathErrorView {
    SelfPathUnavailable,
    NoParentDirectory,
    ScriptNotFound { path: Seq<char> },
}

impl View for PathError {
    type V = PathErrorView;

    open spec fn view(&self) -> PathErrorView {
        match *self {
            PathError::SelfPathUnavailable => PathErrorView::SelfPathUnavailable,
            PathError::NoParentDirectory => PathErrorView::NoParentDirectory,
            PathError::ScriptNotFound { path } => PathErrorView::ScriptNotFound { path: path@ },
        }
    }
}

/// The script could not be run.
#[derive(Clone, Copy, Debug, PartialEq, Eq, Structural)]
pub enum ExecError {
    /// The operating system could not create the child process.
    SpawnFailed,
}

/// Which step of the launch failed.
#[derive(Clone, Debug, PartialEq, Eq)]
pub enum Failure {
    Logger(LoggerInitError),
    Privilege(PrivilegeError),
    Path(PathError),
    Exec(ExecError),
}

/// The mathematical value of a [`Failure`].
pub enum FailureView {
    Logger(LoggerInitErrorView),
    Privilege(PrivilegeError),
    Path(PathErrorView),
    Exec(ExecError),
}

impl View for Failure {
    type V = FailureView;

    open spec fn view(&self) -> FailureView {
        match *self {
            Failure::Logger(e) => FailureView::Logger(e@),
            Failure::Privilege(e) => FailureView::Privilege(e),
            Failure::Path(e) => FailureView::Path(e@),
            Failure::Exec(e) => FailureView::Exec(e),
        }
    }
}

/// A failed launch: the step that failed, and beneath it the messages of the
/// underlying error and of its sources, outermost first.
#[derive(Clone, Debug, PartialEq, Eq)]
pub struct LaunchError {
    pub failure: Failure,
    pub causes: Vec<String>,
}

/// The mathematical value of a [`LaunchError`].
pub struct LaunchErrorView {
    pub failure: FailureView,
    pub causes: Seq<Seq<char>>,
}

impl View for LaunchError {
    type V = LaunchErrorView;

    open spec fn view(&self) -> LaunchErrorView {
        LaunchErrorView { failure: self.failure@, causes: self.causes.deep_view() }
    }
}

/// The context message of a failure.
pub open spec fn failure_message(failure: FailureView) -> Seq<char> {
    match failure {
        FailureView::Logger(LoggerInitErrorView::ConfigFile { path }) =>
            "Unable to initialize log4rs logger with the given config file at '"@ + path + "'"@,
        FailureView::Logger(LoggerInitErrorView::DefaultSink) =>
            "Unable to initialize default logger"@,
        FailureView::Privilege(_) => "Need to be root"@,
        FailureView::Path(PathErrorView::SelfPathUnavailable) =>
            "Unable to get current executable path"@,
        FailureView::Path(PathErrorView::NoParentDirectory) =>
            "Unable to get current executable directory"@,
        FailureView::Path(PathErrorView::ScriptNotFound { path }) =>
            "Unable to find "@ + path_debug(path) + " for command execution"@,
        FailureView::Exec(_) => "Unable to run command"@,
    }
}

/// The causal chain of an error: its own message, then each cause.
pub open spec fn causal_chain(error: LaunchErrorView) -> Seq<Seq<char>> {
    seq![failure_message(error.failure)] + error.causes
}

/// The lines by which a failed launch is reported: the outermost message
/// first, then one line for each cause beneath it.
pub open spec fn report_lines(error: LaunchErrorView) -> Seq<Seq<char>> {
    Seq::new(
        error.causes.len() + 1,
        |i: int|
            if i == 0 {
                "Error: "@ + failure_message(error.failure)
            } else {
                "> Caused by: "@ + error.causes[i - 1]
            },
    )
}

impl Failure {
    /// The context message of this failure.
    pub fn message(&self) -> (res: String)
        ensures
            res@ == failure_message(self@),
    {
        match self {
            Failure::Logger(LoggerInitError::ConfigFile { path }) => {
                let mut text = String::from_str(
                    "Unable to initialize log4rs logger with the given config file at '",
                );
                text.append(path.as_str());
                text.append("'");
                text
            },
            Failure::Logger(LoggerInitError::DefaultSink) => String::from_str(
                "Unable to initialize default logger",
            ),
            Failure::Privilege(_) => String::from_str("Need to be root"),
            Failure::Path(PathError::SelfPathUnavailable) => String::from_str(
                "Unable to get current executable path",
            ),
            Failure::Path(PathError::NoParentDirectory) => String::from_str(
                "Unable to get current executable directory",
            ),
            Failure::Path(PathError::ScriptNotFound { path }) => {
                let shown = quoted(path.as_str());
                let mut text = String::from_str("Unable to find ");
                text.append(shown.as_str());
                text.append(" for command execution");
                text
            },
            Failure::Exec(_) => String::from_str("Unable to run command"),
        }
    }
}

impl LaunchError {
    /// An error with nothing beneath it.
    pub fn new(failure: Failure) -> (res: LaunchError)
        ensures
            res@ == (LaunchErrorView { failure: failure@, causes: Seq::empty() }),
    {
        let res = LaunchError { failure, causes: Vec::new() };
        assert(res.causes.deep_view() =~= Seq::<Seq<char>>::empty());
        res
    }

    /// An error that wraps an underlying one, given by the messages of that
    /// error and of its sources, outermost first.
    pub fn with_causes(failure: Failure, causes: Vec<String>) -> (res: LaunchError)
        ensures
            res@ == (LaunchErrorView { failure: failure@, causes: causes.deep_view() }),
    {
        LaunchError { failure, causes }
    }

    /// The error's own message.
    pub fn message(&self) -> (res: String)
        ensures
            res@ == failure_message(self@.failure),
    {
        self.failure.message()
    }

    /// The causal chain, outermost first.
    pub fn chain(&self) -> (res: Vec<String>)
        ensures
            res.deep_view() == causal_chain(self@),
    {
        let mut lines: Vec<String> = Vec::new();
        lines.push(self.failure.message());
        let mut i: usize = 0;
        while i < self.causes.len()
            invariant
                i <= self.causes.len(),
                lines.len() == i + 1,
                lines[0]@ == failure_message(self@.failure),
                forall|k: int| 0 <= k < i ==> (#[trigger] lines[k + 1])@ == self.causes[k]@,
            decreases self.causes.len() - i,
        {
            lines.push(self.causes[i].clone());
            i = i + 1;
        }
        proof {
            let chain = causal_chain(self@);
            assert(lines.deep_view().len() == chain.len());
            assert forall|k: int| 0 <= k < chain.len() implies lines.deep_view()[k] == chain[k] by {
                if k > 0 {
                    assert(lines[(k - 1) + 1]@ == self.causes[k - 1]@);
                    assert(self@.causes[k - 1] == self.causes[k - 1]@);
                }
            }
            assert(lines.deep_view() =~= chain);
        }
        lines
    }

    /// The lines by which the failure is reported, outermost first.
    pub fn report(&self) -> (res: Vec<String>)
        ensures
            res.deep_view() == report_lines(self@),
    {
        let mut lines: Vec<String> = Vec::new();
        let mut head = String::from_str("Error: ");
        let message = self.failure.message();
        head.append(message.as_str());
        lines.push(head);
        let mut i: usize = 0;
        while i < self.causes.len()
            invariant
                i <= self.causes.len(),
                lines.len() == i + 1,
                lines[0]@ == "Error: "@ + failure_message(self@.failure),
                forall|k: int| 0 <= k < i ==> (#[trigger] lines[k + 1])@ == "> Caused by: "@
                    + self.causes[k]@,
            decreases self.causes.len() - i,
        {
            let mut line = String::from_str("> Caused by: ");
            line.append(self.causes[i].as_str());
            lines.push(line);
            i = i + 1;
        }
        proof {
            let report = report_lines(self@);
            assert(lines.deep_view().len() == report.len());
            assert forall|k: int| 0 <= k < report.len() implies lines.deep_view()[k] == report[k] by {
                if k > 0 {
                    assert(lines[(k - 1) + 1]@ == "> Caused by: "@ + self.causes[k - 1]@);
                    assert(self@.causes[k - 1] == self.causes[k - 1]@);
                }
            }
            assert(lines.deep_view() =~= report);
        }
        lines
    }
}

} // verus!
