//! The lines the supervisor writes, and the sink it writes them to.

use crate::text::{decimal, decimal_text};
use vstd::prelude::*;

verus! {

/// The channel of the output sink a line goes to.
#[derive(Clone, Copy, Debug, PartialEq, Eq, Structural)]
pub enum Severity {
    Plain,
    Info,
    Warning,
    Error,
}

/// The output sink: four channels keyed by severity, and a switch that turns
/// colored rendering off. The supervisor hands it text only.
pub trait MonzillaLog {
    fn disable_color(&self);

    fn plain(&self, text: &str);

    fn info(&self, text: &str);

    fn warning(&self, text: &str);

    fn error(&self, text: &str);
}

/// One line for the output sink.
#[derive(Debug, PartialEq, Eq)]
pub enum Notice {
    /// The text the argument parser produced in place of a configuration.
    Usage(String),
    /// The command is about to be started.
    Launching(String),
    /// The hint on the two control keys.
    Controls,
    /// The user asked to leave.
    Terminating,
    /// The user asked for a restart.
    Restarting,
    /// An entry of an expanded glob could not be read; the glob, then the reason.
    UnreadableEntry(String, String),
    /// The keystroke reader could not read standard input and has ended.
    KeyboardOff(String),
    /// The watcher reported trouble; watching goes on.
    WatchFault(String),
    /// The child is still running and its process group is being killed.
    Killing(u32),
    /// The process group could not be signalled because it was gone already.
    KillSkipped(u32, String),
    /// The child could not be awaited because it was gone already.
    WaitSkipped(String),
    /// The terminal could not be put back into its captured configuration.
    TerminalNotReset(String),
}

/// The mathematical content of a [`Notice`].
pub enum NoticeView {
    Usage(Seq<char>),
    Launching(Seq<char>),
    Controls,
    Terminating,
    Restarting,
    UnreadableEntry(Seq<char>, Seq<char>),
    KeyboardOff(Seq<char>),
    WatchFault(Seq<char>),
    Killing(u32),
    KillSkipped(u32, Seq<char>),
    WaitSkipped(Seq<char>),
    TerminalNotReset(Seq<char>),
}

impl NoticeView {
    /// The channel the line goes to.
    pub open spec fn severity(self) -> Severity {
        match self {
            NoticeView::Usage(_) => Severity::Plain,
            NoticeView::Launching(_) => Severity::Info,
            NoticeView::Controls => Severity::Info,
            NoticeView::Terminating => Severity::Info,
            NoticeView::Restarting => Severity::Info,
            NoticeView::UnreadableEntry(_, _) => Severity::Warning,
            NoticeView::KeyboardOff(_) => Severity::Warning,
            NoticeView::WatchFault(_) => Severity::Warning,
            NoticeView::Killing(_) => Severity::Warning,
            NoticeView::KillSkipped(_, _) => Severity::Warning,
            NoticeView::WaitSkipped(_) => Severity::Warning,
            NoticeView::TerminalNotReset(_) => Severity::Warning,
        }
    }

    /// The text of the line.
    pub open spec fn text(self) -> Seq<char> {
        match self {
            NoticeView::Usage(text) => text,
            NoticeView::Launching(command) => "Running command '"@ + command + "'"@,
            NoticeView::Controls => "Control+C to exit/Control+R to restart"@,
            NoticeView::Terminating => "Terminating..."@,
            NoticeView::Restarting => "Restarting..."@,
            NoticeView::UnreadableEntry(pattern, detail) => "'"@ + pattern + "': "@ + detail,
            NoticeView::KeyboardOff(detail) => "Keyboard control is off: "@ + detail,
            NoticeView::WatchFault(detail) => "Watch error: "@ + detail,
            NoticeView::Killing(group) => "Killing process group "@ + decimal_text(group as nat),
            NoticeView::KillSkipped(group, detail) => "Could not kill process group "@
                + decimal_text(group as nat) + ": "@ + detail,
            NoticeView::WaitSkipped(detail) => "Could not wait for process to exit: "@ + detail,
            NoticeView::TerminalNotReset(detail) => "Unable to reset terminal I/O: "@ + detail,
        }
    }
}

impl View for Notice {
    type V = NoticeView;

    open spec fn view(&self) -> NoticeView {
        match self {
            Notice::Usage(text) => NoticeView::Usage(text@),
            Notice::Launching(command) => NoticeView::Launching(command@),
            Notice::Controls => NoticeView::Controls,
            Notice::Terminating => NoticeView::Terminating,
            Notice::Restarting => NoticeView::Restarting,
            Notice::UnreadableEntry(pattern, detail) => NoticeView::UnreadableEntry(
                pattern@,
                detail@,
            ),
            Notice::KeyboardOff(detail) => NoticeView::KeyboardOff(detail@),
            Notice::WatchFault(detail) => NoticeView::WatchFault(detail@),
            Notice::Killing(group) => NoticeView::Killing(*group),
            Notice::KillSkipped(group, detail) => NoticeView::KillSkipped(*group, detail@),
            Notice::WaitSkipped(detail) => NoticeView::WaitSkipped(detail@),
            Notice::TerminalNotReset(detail) => NoticeView::TerminalNotReset(detail@),
        }
    }
}

impl DeepView for Notice {
    type V = NoticeView;

    open spec fn deep_view(&self) -> NoticeView {
        self@
    }
}

fn labelled(label: &str, detail: &str) -> (text: String)
    ensures
        text@ == label@ + detail@,
{
    let mut text = String::from_str(label);
    text.append(detail);
    text
}

impl Notice {
    /// The channel the line goes to.
    pub fn severity(&self) -> (severity: Severity)
        ensures
            severity == self@.severity(),
    {
        match self {
            Notice::Usage(_) => Severity::Plain,
            Notice::Launching(_) => Severity::Info,
            Notice::Controls => Severity::Info,
            Notice::Terminating => Severity::Info,
            Notice::Restarting => Severity::Info,
            Notice::UnreadableEntry(_, _) => Severity::Warning,
            Notice::KeyboardOff(_) => Severity::Warning,
            Notice::WatchFault(_) => Severity::Warning,
            Notice::Killing(_) => Severity::Warning,
            Notice::KillSkipped(_, _) => Severity::Warning,
            Notice::WaitSkipped(_) => Severity::Warning,
            Notice::TerminalNotReset(_) => Severity::Warning,
        }
    }

    /// The text of the line.
    pub fn text(&self) -> (text: String)
        ensures
            text@ == self@.text(),
    {
        match self {
            Notice::Usage(text) => text.clone(),
            Notice::Launching(command) => {
                let mut text = labelled("Running command '", command.as_str());
                text.append("'");
                text
            },
            Notice::Controls => String::from_str("Control+C to exit/Control+R to restart"),
            Notice::Terminating => String::from_str("Terminating..."),
            Notice::Restarting => String::from_str("Restarting..."),
            Notice::UnreadableEntry(pattern, detail) => {
                let mut text = labelled("'", pattern.as_str());
                text.append("': ");
                text.append(detail.as_str());
                text
            },
            Notice::KeyboardOff(detail) => labelled("Keyboard control is off: ", detail.as_str()),
            Notice::WatchFault(detail) => labelled("Watch error: ", detail.as_str()),
            Notice::Killing(group) => {
                let number = decimal(*group);
                labelled("Killing process group ", number.as_str())
            },
            Notice::KillSkipped(group, detail) => {
                let number = decimal(*group);
                let mut text = labelled("Could not kill process group ", number.as_str());
                text.append(": ");
                text.append(detail.as_str());
                text
            },
            Notice::WaitSkipped(detail) => labelled(
                "Could not wait for process to exit: ",
                detail.as_str(),
            ),
            Notice::TerminalNotReset(detail) => labelled(
                "Unable to reset terminal I/O: ",
                detail.as_str(),
            ),
        }
    }

    /// Writes the line to the channel of its severity.
    pub fn write_to<L: MonzillaLog + ?Sized>(&self, log: &L) {
        let text = self.text();
        match self.severity() {
            Severity::Plain => log.plain(text.as_str()),
            Severity::Info => log.info(text.as_str()),
            Severity::Warning => log.warning(text.as_str()),
            Severity::Error => log.error(text.as_str()),
        }
    }
}

} // verus!
