//! One supervised run: the state the host threads through its loop.

use crate::config::RunConfiguration;
use crate::error::SupervisorError;
use crate::keys::UiEvent;
use crate::machine::{
    Action, ChangeNotification, ChildHandle, ChildState, Event, Phase, SessionView, StopReason,
    Teardown, TerminalGuard,
};
use crate::notice::Notice;
use crate::terminal::{raw_mode, TerminalState};
use vstd::prelude::*;

verus! {

/// The state of one supervised run.
#[derive(Debug)]
pub struct Session {
    phase: Phase,
    config: RunConfiguration,
    command_line: String,
    terminal: TerminalGuard,
    child: Option<ChildHandle>,
    failure: Option<SupervisorError>,
}

impl View for Session {
    type V = SessionView;

    closed spec fn view(&self) -> SessionView {
        SessionView {
            phase: self.phase,
            config: self.config@,
            terminal: self.terminal,
            child: self.child,
            failure: match self.failure {
                Some(error) => Some(error@),
                None => None,
            },
        }
    }
}

fn silent() -> (notices: Vec<Notice>)
    ensures
        notices.deep_view() == Seq::<crate::notice::NoticeView>::empty(),
{
    let notices: Vec<Notice> = Vec::new();
    notices
}

fn single(notice: Notice) -> (notices: Vec<Notice>)
    ensures
        notices.deep_view() == seq![notice@],
{
    let mut notices: Vec<Notice> = Vec::new();
    notices.push(notice);
    notices
}

impl Session {
    /// The session is in a state a run can be in.
    pub closed spec fn wf(&self) -> bool {
        &&& self@.wf()
        &&& self.command_line@ == self@.config.command_line()
    }

    /// A well-formed session has a well-formed view.
    pub proof fn lemma_view_wf(&self)
        requires
            self.wf(),
        ensures
            self@.wf(),
    {
    }

    /// Begins a run: nothing is captured, nothing runs, and the terminal's
    /// configuration is asked for first.
    pub fn begin(config: RunConfiguration) -> (session: Session)
        ensures
            session.wf(),
            session@ == SessionView::begin(config@),
    {
        let command_line = config.command_line();
        Session {
            phase: Phase::Capturing,
            config,
            command_line,
            terminal: TerminalGuard::Unheld,
            child: None,
            failure: None,
        }
    }

    /// Where the session stands.
    pub fn phase(&self) -> (phase: Phase)
        ensures
            phase == self@.phase,
    {
        self.phase
    }

    /// The configuration of the run.
    pub fn configuration(&self) -> (config: &RunConfiguration)
        ensures
            config@ == self@.config,
    {
        &self.config
    }

    /// The child that is live, if one is.
    pub fn child(&self) -> (child: Option<ChildHandle>)
        ensures
            child == self@.child,
    {
        self.child
    }

    /// The fatal error that ended or is ending the run, if there is one.
    pub fn failure(&self) -> (failure: Option<&SupervisorError>)
        ensures
            failure is Some <==> self@.failure is Some,
            failure matches Some(error) ==> error@ == self@.failure.unwrap(),
    {
        self.failure.as_ref()
    }

    /// The exit code of the run: 0 unless it failed.
    pub fn exit_code(&self) -> (code: i32)
        ensures
            code == self@.exit_code(),
    {
        if self.failure.is_some() {
            1
        } else {
            0
        }
    }

    /// The action the host is to perform next.
    pub fn pending(&self) -> (action: Action)
        requires
            self.wf(),
        ensures
            action == self@.pending(),
    {
        match self.phase {
            Phase::Capturing => Action::CaptureTerminal,
            Phase::EnteringRaw => match self.terminal {
                TerminalGuard::Captured(original, bits) => Action::EnterRawMode(
                    raw_mode(original, bits),
                ),
                _ => Action::CaptureTerminal,
            },
            Phase::CreatingWatcher => Action::CreateWatcher(self.config.debounce_millis),
            Phase::Registering(index) => Action::WatchPath(index),
            Phase::StartingReader => Action::StartKeystrokeReader,
            Phase::Starting => Action::Spawn,
            Phase::Running => Action::AwaitEvent,
            Phase::Stopping(_, Teardown::Polling) => Action::PollChild(self.group()),
            Phase::Stopping(_, Teardown::Killing) => Action::KillGroup(self.group()),
            Phase::Stopping(_, Teardown::Reaping) => Action::AwaitExit(self.group()),
            Phase::Restoring => Action::RestoreTerminal(self.original()),
            Phase::Terminated => Action::Exit(self.exit_code()),
        }
    }

    fn group(&self) -> (group: u32)
        requires
            self.child is Some,
        ensures
            group == self.child.unwrap().group,
    {
        match self.child {
            Some(child) => child.group,
            None => 0,
        }
    }

    fn original(&self) -> (original: TerminalState)
        requires
            !(self.terminal is Unheld),
        ensures
            Some(original) == self@.captured(),
    {
        match self.terminal {
            TerminalGuard::Unheld => TerminalState { local_flags: 0 },
            TerminalGuard::Captured(original, _) => original,
            TerminalGuard::Raw(original) => original,
            TerminalGuard::Released(original) => original,
        }
    }

    fn launch(&mut self) -> (notices: Vec<Notice>)
        requires
            old(self).wf(),
            old(self).phase is StartingReader || old(self).phase is Stopping,
        ensures
            final(self).wf(),
            final(self)@ == old(self)@.launching().next,
            notices.deep_view() == old(self)@.launching().notices,
    {
        self.phase = Phase::Starting;
        self.child = None;
        let mut notices: Vec<Notice> = Vec::new();
        notices.push(Notice::Launching(self.command_line.clone()));
        notices.push(Notice::Controls);
        notices
    }

    fn fail(&mut self, error: SupervisorError)
        requires
            old(self).wf(),
            old(self).terminal is Raw,
        ensures
            final(self).wf(),
            final(self)@ == old(self)@.failed(error@),
    {
        self.phase = Phase::Restoring;
        self.child = None;
        self.failure = Some(error);
    }

    fn refuse(&mut self, error: SupervisorError)
        requires
            old(self).wf(),
            !(old(self).terminal is Raw),
        ensures
            final(self).wf(),
            final(self)@ == old(self)@.refused(error@),
    {
        self.phase = Phase::Terminated;
        self.failure = Some(error);
    }

    fn watch_from(&mut self, index: usize)
        requires
            old(self).wf(),
            old(self).terminal is Raw,
            old(self).child is None,
            old(self).failure is None,
            index <= old(self).config.paths.len(),
        ensures
            final(self).wf(),
            final(self)@ == old(self)@.at(old(self)@.watch_from(index as int)),
    {
        if index < self.config.paths.len() {
            self.phase = Phase::Registering(index);
        } else {
            self.phase = Phase::StartingReader;
        }
    }

    fn release(&mut self)
        requires
            old(self).wf(),
            old(self).phase is Restoring,
        ensures
            final(self).wf(),
            final(self)@ == old(self)@.released(),
    {
        let original = self.original();
        self.phase = Phase::Terminated;
        self.terminal = TerminalGuard::Released(original);
    }

    fn reap(&mut self, reason: StopReason) -> (notices: Vec<Notice>)
        requires
            old(self).wf(),
            old(self).phase is Stopping,
        ensures
            final(self).wf(),
            final(self)@ == old(self)@.reaped(reason).next,
            notices.deep_view() == old(self)@.reaped(reason).notices,
    {
        match reason {
            StopReason::UserRequestedExit => {
                self.phase = Phase::Restoring;
                self.child = None;
                silent()
            },
            _ => self.launch(),
        }
    }

    /// Takes the event that answers the pending action, moves to the next
    /// state and returns the lines to write, in order. An event that does not
    /// answer the pending action changes nothing and writes nothing.
    pub fn advance(&mut self, event: Event) -> (notices: Vec<Notice>)
        requires
            old(self).wf(),
        ensures
            final(self).wf(),
            final(self)@ == old(self)@.step(event@).next,
            notices.deep_view() == old(self)@.step(event@).notices,
    {
        match (self.phase, event) {
            (Phase::Capturing, Event::TerminalCaptured(state, bits)) => {
                self.phase = Phase::EnteringRaw;
                self.terminal = TerminalGuard::Captured(state, bits);
                silent()
            },
            (Phase::Capturing, Event::Failed(cause)) => {
                self.refuse(SupervisorError::TerminalCapture { cause });
                silent()
            },
            (Phase::EnteringRaw, Event::Completed) => {
                let original = self.original();
                self.phase = Phase::CreatingWatcher;
                self.terminal = TerminalGuard::Raw(original);
                silent()
            },
            (Phase::EnteringRaw, Event::Failed(cause)) => {
                self.refuse(SupervisorError::TerminalRaw { cause });
                silent()
            },
            (Phase::CreatingWatcher, Event::Completed) => {
                self.watch_from(0);
                silent()
            },
            (Phase::CreatingWatcher, Event::Failed(cause)) => {
                self.fail(SupervisorError::WatcherCreation { cause });
                silent()
            },
            (Phase::Registering(index), Event::Completed) => {
                assert(self.config.paths.deep_view().len() == self.config.paths.len());
                self.watch_from(index + 1);
                silent()
            },
            (Phase::Registering(index), Event::Failed(cause)) => {
                let path = self.config.paths[index].clone();
                self.fail(SupervisorError::WatchRegistration { path, cause });
                silent()
            },
            (Phase::StartingReader, Event::Completed) => self.launch(),
            (Phase::Starting, Event::ChildSpawned(group)) => {
                self.phase = Phase::Running;
                self.child = Some(ChildHandle { group, state: ChildState::Running });
                silent()
            },
            (Phase::Starting, Event::Failed(cause)) => {
                let command = self.command_line.clone();
                self.fail(SupervisorError::Spawn { command, cause });
                silent()
            },
            (Phase::Running, Event::Change(ChangeNotification::Changed)) => {
                self.phase = Phase::Stopping(StopReason::FilesChanged, Teardown::Polling);
                silent()
            },
            (Phase::Running, Event::Change(ChangeNotification::Failed(detail))) => single(
                Notice::WatchFault(detail),
            ),
            (Phase::Running, Event::Key(UiEvent::Terminate)) => {
                self.phase = Phase::Stopping(StopReason::UserRequestedExit, Teardown::Polling);
                single(Notice::Terminating)
            },
            (Phase::Running, Event::Key(UiEvent::Restart)) => {
                self.phase = Phase::Stopping(StopReason::RestartRequested, Teardown::Polling);
                single(Notice::Restarting)
            },
            (Phase::Stopping(reason, Teardown::Polling), Event::ChildPolled(None)) => {
                self.phase = Phase::Stopping(reason, Teardown::Killing);
                single(Notice::Killing(self.group()))
            },
            (Phase::Stopping(reason, Teardown::Polling), Event::ChildPolled(Some(code))) => {
                let group = self.group();
                self.phase = Phase::Stopping(reason, Teardown::Reaping);
                self.child = Some(ChildHandle { group, state: ChildState::ExitedNormally(code) });
                silent()
            },
            (Phase::Stopping(_, Teardown::Polling), Event::Failed(cause)) => {
                self.fail(SupervisorError::ChildStatus { cause });
                silent()
            },
            (Phase::Stopping(reason, Teardown::Killing), Event::Completed) => {
                let group = self.group();
                self.phase = Phase::Stopping(reason, Teardown::Reaping);
                self.child = Some(ChildHandle { group, state: ChildState::Killed });
                silent()
            },
            (Phase::Stopping(reason, Teardown::Killing), Event::Vanished(detail)) => {
                let group = self.group();
                self.phase = Phase::Stopping(reason, Teardown::Reaping);
                self.child = Some(ChildHandle { group, state: ChildState::Killed });
                single(Notice::KillSkipped(group, detail))
            },
            (Phase::Stopping(_, Teardown::Killing), Event::Failed(cause)) => {
                let group = self.group();
                self.fail(SupervisorError::Kill { group, cause });
                silent()
            },
            (Phase::Stopping(reason, Teardown::Reaping), Event::Completed) => self.reap(reason),
            (Phase::Stopping(reason, Teardown::Reaping), Event::Vanished(detail)) => {
                let mut notices = single(Notice::WaitSkipped(detail));
                let mut more = self.reap(reason);
                notices.append(&mut more);
                notices
            },
            (Phase::Stopping(_, Teardown::Reaping), Event::Failed(cause)) => {
                self.fail(SupervisorError::Wait { cause });
                silent()
            },
            (Phase::Restoring, Event::Completed) => {
                self.release();
                silent()
            },
            (Phase::Restoring, Event::Failed(detail)) => {
                self.release();
                single(Notice::TerminalNotReset(detail))
            },
            _ => silent(),
        }
    }
}

} // verus!
