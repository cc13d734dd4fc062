//! The supervisor as a state machine over plain values.
//!
//! The program that hosts the supervisor performs one [`Action`] at a time
//! and reports what came of it as an [`Event`]. This module says, for every
//! state and every event, what the next state is and which lines are
//! written.

use crate::config::ConfigurationView;
use crate::error::ErrorView;
use crate::keys::UiEvent;
use crate::notice::NoticeView;
use crate::terminal::{raw_of, ModeBits, TerminalState};
use vstd::prelude::*;

verus! {

/// Why the running child is being stopped.
#[derive(Clone, Copy, Debug, PartialEq, Eq, Structural)]
pub enum StopReason {
    UserRequestedExit,
    RestartRequested,
    FilesChanged,
}

/// How far the teardown of the child has come.
#[derive(Clone, Copy, Debug, PartialEq, Eq, Structural)]
pub enum Teardown {
    /// Asking whether the child still runs.
    Polling,
    /// Killing the process group.
    Killing,
    /// Waiting for the child to exit.
    Reaping,
}

/// Where a session stands.
#[derive(Clone, Copy, Debug, PartialEq, Eq, Structural)]
pub enum Phase {
    /// Reading the terminal's configuration.
    Capturing,
    /// Switching the terminal to raw input.
    EnteringRaw,
    /// Creating the debounced watcher.
    CreatingWatcher,
    /// Registering the path with this index.
    Registering(usize),
    /// Starting the keystroke reader.
    StartingReader,
    /// Spawning the child.
    Starting,
    /// The child runs; waiting for a change or a key.
    Running,
    /// Taking the child down.
    Stopping(StopReason, Teardown),
    /// Putting the terminal back.
    Restoring,
    /// Nothing is left to do.
    Terminated,
}

/// What is known of the child's process.
#[derive(Clone, Copy, Debug, PartialEq, Eq, Structural)]
pub enum ChildState {
    /// Started, and not yet seen to have ended.
    Running,
    /// Seen to have exited by itself, with this code.
    ExitedNormally(i32),
    /// Its process group was killed, or was gone when the kill was sent.
    Killed,
}

/// One running instance of the command, as a process group.
#[derive(Clone, Copy, Debug, PartialEq, Eq, Structural)]
pub struct ChildHandle {
    /// The id of the process group.
    pub group: u32,
    pub state: ChildState,
}

/// What the session holds of the terminal.
#[derive(Clone, Copy, Debug, PartialEq, Eq, Structural)]
pub enum TerminalGuard {
    /// Nothing was captured.
    Unheld,
    /// The configuration was captured; the terminal is still as it was.
    Captured(TerminalState, ModeBits),
    /// The terminal is in raw mode; the captured configuration is kept.
    Raw(TerminalState),
    /// The captured configuration was handed back for restoring.
    Released(TerminalState),
}

/// What the host is asked to do next.
#[derive(Clone, Copy, Debug, PartialEq, Eq, Structural)]
pub enum Action {
    /// Read the terminal's configuration. Answered by `TerminalCaptured` or `Failed`.
    CaptureTerminal,
    /// Apply this configuration to the terminal. Answered by `Completed` or `Failed`.
    EnterRawMode(TerminalState),
    /// Create the watcher with this debounce window in milliseconds.
    /// Answered by `Completed` or `Failed`.
    CreateWatcher(u64),
    /// Watch, not recursively, the configured path with this index.
    /// Answered by `Completed` or `Failed`.
    WatchPath(usize),
    /// Start the task that reads keystrokes. Answered by `Completed`.
    StartKeystrokeReader,
    /// Start the configured command as a new process group in the configured
    /// directory. Answered by `ChildSpawned` or `Failed`.
    Spawn,
    /// Wait for the next change notification or key. Answered by `Change` or `Key`.
    AwaitEvent,
    /// Ask, without blocking, whether the child of this group has exited.
    /// Answered by `ChildPolled` or `Failed`.
    PollChild(u32),
    /// Kill this process group. Answered by `Completed`, `Vanished` or `Failed`.
    KillGroup(u32),
    /// Wait until the child of this group has exited.
    /// Answered by `Completed`, `Vanished` or `Failed`.
    AwaitExit(u32),
    /// Apply this configuration to the terminal. Answered by `Completed` or `Failed`.
    RestoreTerminal(TerminalState),
    /// Leave with this exit code.
    Exit(i32),
}

/// A message of the watcher: paths changed, or the watcher had trouble.
#[derive(Debug, PartialEq, Eq)]
pub enum ChangeNotification {
    Changed,
    Failed(String),
}

/// The mathematical content of a [`ChangeNotification`].
pub enum ChangeView {
    Changed,
    Failed(Seq<char>),
}

impl View for ChangeNotification {
    type V = ChangeView;

    open spec fn view(&self) -> ChangeView {
        match self {
            ChangeNotification::Changed => ChangeView::Changed,
            ChangeNotification::Failed(detail) => ChangeView::Failed(detail@),
        }
    }
}

/// What came of the action the host performed.
#[derive(Debug, PartialEq, Eq)]
pub enum Event {
    /// The terminal's configuration, and the platform's mode bits.
    TerminalCaptured(TerminalState, ModeBits),
    /// The child was started; this is the id of its process group.
    ChildSpawned(u32),
    /// The watcher sent a message.
    Change(ChangeNotification),
    /// The user pressed a control key.
    Key(UiEvent),
    /// The child's exit code, or `None` while it runs.
    ChildPolled(Option<i32>),
    /// The action succeeded.
    Completed,
    /// The action failed, with the cause.
    Failed(String),
    /// The action failed because the process group no longer exists.
    Vanished(String),
}

/// The mathematical content of an [`Event`].
pub enum EventView {
    TerminalCaptured(TerminalState, ModeBits),
    ChildSpawned(u32),
    Change(ChangeView),
    Key(UiEvent),
    ChildPolled(Option<i32>),
    Completed,
    Failed(Seq<char>),
    Vanished(Seq<char>),
}

impl View for Event {
    type V = EventView;

    open spec fn view(&self) -> EventView {
        match self {
            Event::TerminalCaptured(state, bits) => EventView::TerminalCaptured(*state, *bits),
            Event::ChildSpawned(group) => EventView::ChildSpawned(*group),
            Event::Change(change) => EventView::Change(change@),
            Event::Key(key) => EventView::Key(*key),
            Event::ChildPolled(status) => EventView::ChildPolled(*status),
            Event::Completed => EventView::Completed,
            Event::Failed(cause) => EventView::Failed(cause@),
            Event::Vanished(cause) => EventView::Vanished(cause@),
        }
    }
}

/// The state of one supervised run.
pub struct SessionView {
    pub phase: Phase,
    pub config: ConfigurationView,
    pub terminal: TerminalGuard,
    pub child: Option<ChildHandle>,
    pub failure: Option<ErrorView>,
}

/// The outcome of one step: the next state, and the lines written on the way.
pub struct Step {
    pub next: SessionView,
    pub notices: Seq<NoticeView>,
}

impl SessionView {
    /// The state in which a run begins.
    pub open spec fn begin(config: ConfigurationView) -> SessionView {
        SessionView {
            phase: Phase::Capturing,
            config,
            terminal: TerminalGuard::Unheld,
            child: None,
            failure: None,
        }
    }

    /// The states a run can be in.
    pub open spec fn wf(self) -> bool {
        &&& (self.phase matches Phase::Registering(index) ==> index < self.config.paths.len())
        &&& (self.child is Some <==> self.phase is Running || self.phase is Stopping)
        &&& (self.child matches Some(child) ==> (child.state is Running
            <==> !(self.phase matches Phase::Stopping(_, Teardown::Reaping))))
        &&& self.terminal_fits()
        &&& (self.failure is Some ==> self.phase is Restoring || self.phase is Terminated)
    }

    /// What the session holds of the terminal matches its phase: nothing
    /// before the capture, the captured configuration until raw mode is
    /// entered, raw mode while watching and supervising, and never raw mode
    /// once the run is over.
    pub open spec fn terminal_fits(self) -> bool {
        match self.phase {
            Phase::Capturing => self.terminal is Unheld,
            Phase::EnteringRaw => self.terminal is Captured,
            Phase::Terminated => !(self.terminal is Raw),
            _ => self.terminal is Raw,
        }
    }

    /// The configuration that was captured from the terminal, if any.
    pub open spec fn captured(self) -> Option<TerminalState> {
        match self.terminal {
            TerminalGuard::Unheld => None,
            TerminalGuard::Captured(original, _) => Some(original),
            TerminalGuard::Raw(original) => Some(original),
            TerminalGuard::Released(original) => Some(original),
        }
    }

    /// The exit code of the run: 0 unless it failed.
    pub open spec fn exit_code(self) -> i32 {
        if self.failure is Some {
            1
        } else {
            0
        }
    }

    /// The action the host is to perform in this state.
    pub open spec fn pending(self) -> Action {
        match self.phase {
            Phase::Capturing => Action::CaptureTerminal,
            Phase::EnteringRaw => match self.terminal {
                TerminalGuard::Captured(original, bits) => Action::EnterRawMode(
                    raw_of(original, bits),
                ),
                _ => Action::CaptureTerminal,
            },
            Phase::CreatingWatcher => Action::CreateWatcher(self.config.debounce_millis),
            Phase::Registering(index) => Action::WatchPath(index),
            Phase::StartingReader => Action::StartKeystrokeReader,
            Phase::Starting => Action::Spawn,
            Phase::Running => Action::AwaitEvent,
            Phase::Stopping(_, Teardown::Polling) => Action::PollChild(self.child.unwrap().group),
            Phase::Stopping(_, Teardown::Killing) => Action::KillGroup(self.child.unwrap().group),
            Phase::Stopping(_, Teardown::Reaping) => Action::AwaitExit(self.child.unwrap().group),
            Phase::Restoring => Action::RestoreTerminal(self.captured().unwrap()),
            Phase::Terminated => Action::Exit(self.exit_code()),
        }
    }

    /// The same state in another phase.
    pub open spec fn at(self, phase: Phase) -> SessionView {
        SessionView { phase, ..self }
    }

    /// The state after a fatal error behind the terminal guard: the child, if
    /// any, is given up, and the terminal is put back next.
    pub open spec fn failed(self, error: ErrorView) -> SessionView {
        SessionView { phase: Phase::Restoring, child: None, failure: Some(error), ..self }
    }

    /// The state after a fatal error before raw mode was entered.
    pub open spec fn refused(self, error: ErrorView) -> SessionView {
        SessionView { phase: Phase::Terminated, failure: Some(error), ..self }
    }

    /// The state when the child is about to be started, with the two lines
    /// that announce it.
    pub open spec fn launching(self) -> Step {
        Step {
            next: SessionView { phase: Phase::Starting, child: None, ..self },
            notices: seq![
                NoticeView::Launching(self.config.command_line()),
                NoticeView::Controls,
            ],
        }
    }

    /// The state once the child has been awaited: the run ends if the user
    /// asked for it, and the command is started again otherwise.
    pub open spec fn reaped(self, reason: StopReason) -> Step {
        if reason == StopReason::UserRequestedExit {
            quiet(SessionView { phase: Phase::Restoring, child: None, ..self })
        } else {
            self.launching()
        }
    }

    /// The state with the child's process known to be in `state`.
    pub open spec fn child_in(self, state: ChildState) -> SessionView {
        SessionView {
            child: Some(ChildHandle { group: self.child.unwrap().group, state }),
            ..self
        }
    }

    /// One step of the machine. An event that does not answer the pending
    /// action changes nothing and writes nothing.
    pub open spec fn step(self, event: EventView) -> Step {
        match (self.phase, event) {
            (Phase::Capturing, EventView::TerminalCaptured(state, bits)) => quiet(
                SessionView {
                    phase: Phase::EnteringRaw,
                    terminal: TerminalGuard::Captured(state, bits),
                    ..self
                },
            ),
            (Phase::Capturing, EventView::Failed(cause)) => quiet(
                self.refused(ErrorView::TerminalCapture { cause }),
            ),
            (Phase::EnteringRaw, EventView::Completed) => quiet(
                SessionView {
                    phase: Phase::CreatingWatcher,
                    terminal: TerminalGuard::Raw(self.captured().unwrap()),
                    ..self
                },
            ),
            (Phase::EnteringRaw, EventView::Failed(cause)) => quiet(
                self.refused(ErrorView::TerminalRaw { cause }),
            ),
            (Phase::CreatingWatcher, EventView::Completed) => quiet(self.at(self.watch_from(0))),
            (Phase::CreatingWatcher, EventView::Failed(cause)) => quiet(
                self.failed(ErrorView::WatcherCreation { cause }),
            ),
            (Phase::Registering(index), EventView::Completed) => quiet(
                self.at(self.watch_from(index + 1)),
            ),
            (Phase::Registering(index), EventView::Failed(cause)) => quiet(
                self.failed(
                    ErrorView::WatchRegistration { path: self.config.paths[index as int], cause },
                ),
            ),
            (Phase::StartingReader, EventView::Completed) => self.launching(),
            (Phase::Starting, EventView::ChildSpawned(group)) => quiet(
                SessionView {
                    phase: Phase::Running,
                    child: Some(ChildHandle { group, state: ChildState::Running }),
                    ..self
                },
            ),
            (Phase::Starting, EventView::Failed(cause)) => quiet(
                self.failed(ErrorView::Spawn { command: self.config.command_line(), cause }),
            ),
            (Phase::Running, EventView::Change(ChangeView::Changed)) => quiet(
                self.at(Phase::Stopping(StopReason::FilesChanged, Teardown::Polling)),
            ),
            (Phase::Running, EventView::Change(ChangeView::Failed(detail))) => Step {
                next: self,
                notices: seq![NoticeView::WatchFault(detail)],
            },
            (Phase::Running, EventView::Key(UiEvent::Terminate)) => Step {
                next: self.at(Phase::Stopping(StopReason::UserRequestedExit, Teardown::Polling)),
                notices: seq![NoticeView::Terminating],
            },
            (Phase::Running, EventView::Key(UiEvent::Restart)) => Step {
                next: self.at(Phase::Stopping(StopReason::RestartRequested, Teardown::Polling)),
                notices: seq![NoticeView::Restarting],
            },
            (Phase::Stopping(reason, Teardown::Polling), EventView::ChildPolled(None)) => Step {
                next: self.at(Phase::Stopping(reason, Teardown::Killing)),
                notices: seq![NoticeView::Killing(self.child.unwrap().group)],
            },
            (Phase::Stopping(reason, Teardown::Polling), EventView::ChildPolled(Some(code))) => quiet(
                self.child_in(ChildState::ExitedNormally(code)).at(
                    Phase::Stopping(reason, Teardown::Reaping),
                ),
            ),
            (Phase::Stopping(_, Teardown::Polling), EventView::Failed(cause)) => quiet(
                self.failed(ErrorView::ChildStatus { cause }),
            ),
            (Phase::Stopping(reason, Teardown::Killing), EventView::Completed) => quiet(
                self.child_in(ChildState::Killed).at(Phase::Stopping(reason, Teardown::Reaping)),
            ),
            (Phase::Stopping(reason, Teardown::Killing), EventView::Vanished(detail)) => Step {
                next: self.child_in(ChildState::Killed).at(
                    Phase::Stopping(reason, Teardown::Reaping),
                ),
                notices: seq![NoticeView::KillSkipped(self.child.unwrap().group, detail)],
            },
            (Phase::Stopping(_, Teardown::Killing), EventView::Failed(cause)) => quiet(
                self.failed(ErrorView::Kill { group: self.child.unwrap().group, cause }),
            ),
            (Phase::Stopping(reason, Teardown::Reaping), EventView::Completed) => self.reaped(
                reason,
            ),
            (Phase::Stopping(reason, Teardown::Reaping), EventView::Vanished(detail)) => Step {
                next: self.reaped(reason).next,
                notices: seq![NoticeView::WaitSkipped(detail)] + self.reaped(reason).notices,
            },
            (Phase::Stopping(_, Teardown::Reaping), EventView::Failed(cause)) => quiet(
                self.failed(ErrorView::Wait { cause }),
            ),
            (Phase::Restoring, EventView::Completed) => quiet(self.released()),
            (Phase::Restoring, EventView::Failed(detail)) => Step {
                next: self.released(),
                notices: seq![NoticeView::TerminalNotReset(detail)],
            },
            _ => quiet(self),
        }
    }

    /// The phase in which the paths from `index` on are registered: the
    /// registration of that path, or the next phase if none is left.
    pub open spec fn watch_from(self, index: int) -> Phase {
        if index < self.config.paths.len() {
            Phase::Registering(index as usize)
        } else {
            Phase::StartingReader
        }
    }

    /// The state once the captured configuration was handed back.
    pub open spec fn released(self) -> SessionView {
        SessionView {
            phase: Phase::Terminated,
            terminal: TerminalGuard::Released(self.captured().unwrap()),
            ..self
        }
    }

    /// The state after one event.
    pub open spec fn on(self, event: EventView) -> SessionView {
        self.step(event).next
    }

    /// The state after a sequence of events.
    pub open spec fn after(self, events: Seq<EventView>) -> SessionView
        decreases events.len(),
    {
        if events.len() == 0 {
            self
        } else {
            self.after(events.drop_last()).on(events.last())
        }
    }
}

/// A step that writes nothing.
pub open spec fn quiet(next: SessionView) -> Step {
    Step { next, notices: Seq::empty() }
}

} // verus!
