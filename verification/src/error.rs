//! The fatal errors of a supervised run.

use crate::text::{decimal, decimal_text};
use vstd::prelude::*;

verus! {

/// The category of a fatal error.
#[derive(Clone, Copy, Debug, PartialEq, Eq, Structural)]
pub enum ErrorKind {
    /// A glob pattern could not be read.
    Configuration,
    /// The terminal configuration could not be read or set.
    TerminalIo,
    /// The watcher could not be created, or a path could not be watched.
    WatchSetup,
    /// The command could not be started.
    Spawn,
    /// The process group could not be signalled.
    Kill,
    /// The state of the child could not be obtained or awaited.
    Wait,
}

/// A fatal error: what the supervisor was doing, on what, and the cause as
/// the operating system or the watcher reported it.
#[derive(Debug, PartialEq, Eq)]
pub enum SupervisorError {
    /// A glob could not be read as a pattern.
    GlobPattern { pattern: String, cause: String },
    /// The terminal's configuration could not be read.
    TerminalCapture { cause: String },
    /// The terminal could not be switched to raw input.
    TerminalRaw { cause: String },
    /// The watcher could not be created.
    WatcherCreation { cause: String },
    /// A path could not be watched.
    WatchRegistration { path: String, cause: String },
    /// The command could not be started.
    Spawn { command: String, cause: String },
    /// It could not be found out whether the child still runs.
    ChildStatus { cause: String },
    /// The process group could not be killed.
    Kill { group: u32, cause: String },
    /// The exit of the child could not be awaited.
    Wait { cause: String },
}

/// The mathematical content of a [`SupervisorError`].
pub enum ErrorView {
    GlobPattern { pattern: Seq<char>, cause: Seq<char> },
    TerminalCapture { cause: Seq<char> },
    TerminalRaw { cause: Seq<char> },
    WatcherCreation { cause: Seq<char> },
    WatchRegistration { path: Seq<char>, cause: Seq<char> },
    Spawn { command: Seq<char>, cause: Seq<char> },
    ChildStatus { cause: Seq<char> },
    Kill { group: u32, cause: Seq<char> },
    Wait { cause: Seq<char> },
}

impl ErrorView {
    /// The category the error belongs to.
    pub open spec fn kind(self) -> ErrorKind {
        match self {
            ErrorView::GlobPattern { .. } => ErrorKind::Configuration,
            ErrorView::TerminalCapture { .. } => ErrorKind::TerminalIo,
            ErrorView::TerminalRaw { .. } => ErrorKind::TerminalIo,
            ErrorView::WatcherCreation { .. } => ErrorKind::WatchSetup,
            ErrorView::WatchRegistration { .. } => ErrorKind::WatchSetup,
            ErrorView::Spawn { .. } => ErrorKind::Spawn,
            ErrorView::ChildStatus { .. } => ErrorKind::Wait,
            ErrorView::Kill { .. } => ErrorKind::Kill,
            ErrorView::Wait { .. } => ErrorKind::Wait,
        }
    }

    /// The cause as it was reported.
    pub open spec fn cause(self) -> Seq<char> {
        match self {
            ErrorView::GlobPattern { cause, .. } => cause,
            ErrorView::TerminalCapture { cause } => cause,
            ErrorView::TerminalRaw { cause } => cause,
            ErrorView::WatcherCreation { cause } => cause,
            ErrorView::WatchRegistration { cause, .. } => cause,
            ErrorView::Spawn { cause, .. } => cause,
            ErrorView::ChildStatus { cause } => cause,
            ErrorView::Kill { cause, .. } => cause,
            ErrorView::Wait { cause } => cause,
        }
    }

    /// The line that is shown to the user.
    pub open spec fn message(self) -> Seq<char> {
        match self {
            ErrorView::GlobPattern { .. } => "Failed to read glob pattern"@,
            ErrorView::TerminalCapture { .. } => "Cannot read terminal I/O configuration"@,
            ErrorView::TerminalRaw { .. } => "Cannot set terminal I/O configuration"@,
            ErrorView::WatcherCreation { .. } => "Unable to create watcher"@,
            ErrorView::WatchRegistration { path, .. } => "Unable to watch file '"@ + path + "'"@,
            ErrorView::Spawn { command, .. } => "Could not start "@ + command,
            ErrorView::ChildStatus { .. } => "Cannot get child process context"@,
            ErrorView::Kill { group, .. } => "Could not kill process group "@ + decimal_text(
                group as nat,
            ),
            ErrorView::Wait { .. } => "Could not wait for process to exit"@,
        }
    }
}

impl View for SupervisorError {
    type V = ErrorView;

    open spec fn view(&self) -> ErrorView {
        match self {
            SupervisorError::GlobPattern { pattern, cause } => ErrorView::GlobPattern {
                pattern: pattern@,
                cause: cause@,
            },
            SupervisorError::TerminalCapture { cause } => ErrorView::TerminalCapture {
                cause: cause@,
            },
            SupervisorError::TerminalRaw { cause } => ErrorView::TerminalRaw { cause: cause@ },
            SupervisorError::WatcherCreation { cause } => ErrorView::WatcherCreation {
                cause: cause@,
            },
            SupervisorError::WatchRegistration { path, cause } => ErrorView::WatchRegistration {
                path: path@,
                cause: cause@,
            },
            SupervisorError::Spawn { command, cause } => ErrorView::Spawn {
                command: command@,
                cause: cause@,
            },
            SupervisorError::ChildStatus { cause } => ErrorView::ChildStatus { cause: cause@ },
            SupervisorError::Kill { group, cause } => ErrorView::Kill {
                group: *group,
                cause: cause@,
            },
            SupervisorError::Wait { cause } => ErrorView::Wait { cause: cause@ },
        }
    }
}

impl SupervisorError {
    /// The category the error belongs to.
    pub fn kind(&self) -> (kind: ErrorKind)
        ensures
            kind == self@.kind(),
    {
        match self {
            SupervisorError::GlobPattern { .. } => ErrorKind::Configuration,
            SupervisorError::TerminalCapture { .. } => ErrorKind::TerminalIo,
            SupervisorError::TerminalRaw { .. } => ErrorKind::TerminalIo,
            SupervisorError::WatcherCreation { .. } => ErrorKind::WatchSetup,
            SupervisorError::WatchRegistration { .. } => ErrorKind::WatchSetup,
            SupervisorError::Spawn { .. } => ErrorKind::Spawn,
            SupervisorError::ChildStatus { .. } => ErrorKind::Wait,
            SupervisorError::Kill { .. } => ErrorKind::Kill,
            SupervisorError::Wait { .. } => ErrorKind::Wait,
        }
    }

    /// The cause as it was reported.
    pub fn cause(&self) -> (cause: &str)
        ensures
            cause@ == self@.cause(),
    {
        match self {
            SupervisorError::GlobPattern { cause, .. } => cause.as_str(),
            SupervisorError::TerminalCapture { cause } => cause.as_str(),
            SupervisorError::TerminalRaw { cause } => cause.as_str(),
            SupervisorError::WatcherCreation { cause } => cause.as_str(),
            SupervisorError::WatchRegistration { cause, .. } => cause.as_str(),
            SupervisorError::Spawn { cause, .. } => cause.as_str(),
            SupervisorError::ChildStatus { cause } => cause.as_str(),
            SupervisorError::Kill { cause, .. } => cause.as_str(),
            SupervisorError::Wait { cause } => cause.as_str(),
        }
    }

    /// The line that is shown to the user.
    pub fn message(&self) -> (text: String)
        ensures
            text@ == self@.message(),
    {
        match self {
            SupervisorError::GlobPattern { .. } => String::from_str("Failed to read glob pattern"),
            SupervisorError::TerminalCapture { .. } => String::from_str(
                "Cannot read terminal I/O configuration",
            ),
            SupervisorError::TerminalRaw { .. } => String::from_str(
                "Cannot set terminal I/O configuration",
            ),
            SupervisorError::WatcherCreation { .. } => String::from_str("Unable to create watcher"),
            SupervisorError::WatchRegistration { path, .. } => {
                let mut text = String::from_str("Unable to watch file '");
                text.append(path.as_str());
                text.append("'");
                text
            },
            SupervisorError::Spawn { command, .. } => {
                let mut text = String::from_str("Could not start ");
                text.append(command.as_str());
                text
            },
            SupervisorError::ChildStatus { .. } => String::from_str(
                "Cannot get child process context",
            ),
            SupervisorError::Kill { group, .. } => {
                let mut text = String::from_str("Could not kill process group ");
                let number = decimal(*group);
                text.append(number.as_str());
                text
            },
            SupervisorError::Wait { .. } => String::from_str("Could not wait for process to exit"),
        }
    }
}

} // verus!
