use monzilla_rs::{
    Action, ChangeNotification, ChildHandle, ChildState, ErrorKind, Event, ModeBits, MonzillaLog,
    MonzillaTool, Notice, Phase, RunConfiguration, Session, StopReason, SupervisorError, Teardown,
    TerminalState, UiEvent,
};
use std::cell::RefCell;

struct Transcript {
    lines: RefCell<Vec<(String, String)>>,
}

impl Transcript {
    fn new() -> Transcript {
        Transcript { lines: RefCell::new(Vec::new()) }
    }

    fn record(&self, channel: &str, text: &str) {
        self.lines.borrow_mut().push((channel.to_string(), text.to_string()));
    }

    fn take(&self) -> Vec<(String, String)> {
        self.lines.replace(Vec::new())
    }
}

impl MonzillaLog for Transcript {
    fn disable_color(&self) {
        self.record("color", "off");
    }

    fn plain(&self, text: &str) {
        self.record("plain", text);
    }

    fn info(&self, text: &str) {
        self.record("info", text);
    }

    fn warning(&self, text: &str) {
        self.record("warning", text);
    }

    fn error(&self, text: &str) {
        self.record("error", text);
    }
}

fn line(channel: &str, text: &str) -> (String, String) {
    (channel.to_string(), text.to_string())
}

fn echo_hi() -> RunConfiguration {
    RunConfiguration {
        no_color: false,
        working_dir: ".".to_string(),
        debounce_millis: 100,
        paths: vec!["a.txt".to_string(), "b.txt".to_string()],
        program: "echo".to_string(),
        arguments: vec!["hi".to_string()],
    }
}

const CAPTURED: TerminalState = TerminalState { local_flags: 0x8a3b };
const RAW: TerminalState = TerminalState { local_flags: 0x8a30 };
const BITS: ModeBits = ModeBits { canonical: 0o2, echo: 0o10, signals: 0o1 };

fn launch_lines() -> Vec<(String, String)> {
    vec![
        line("info", "Running command 'echo hi'"),
        line("info", "Control+C to exit/Control+R to restart"),
    ]
}

/// Brings a session to the point where the first spawn is asked for.
fn ready_to_spawn(tool: &mut MonzillaTool<Transcript>, log: &Transcript) -> Session {
    let mut session = tool.run(Ok(echo_hi())).unwrap();
    assert_eq!(session.pending(), Action::CaptureTerminal);
    assert_eq!(tool.step(&mut session, Event::TerminalCaptured(CAPTURED, BITS)), Action::EnterRawMode(RAW));
    assert_eq!(tool.step(&mut session, Event::Completed), Action::CreateWatcher(100));
    assert_eq!(tool.step(&mut session, Event::Completed), Action::WatchPath(0));
    assert_eq!(tool.step(&mut session, Event::Completed), Action::WatchPath(1));
    assert_eq!(tool.step(&mut session, Event::Completed), Action::StartKeystrokeReader);
    assert_eq!(log.take(), vec![]);
    assert_eq!(tool.step(&mut session, Event::Completed), Action::Spawn);
    assert_eq!(log.take(), launch_lines());
    session
}

/// Brings a session to the point where the child runs.
fn running(tool: &mut MonzillaTool<Transcript>, log: &Transcript, group: u32) -> Session {
    let mut session = ready_to_spawn(tool, log);
    assert_eq!(tool.step(&mut session, Event::ChildSpawned(group)), Action::AwaitEvent);
    assert_eq!(session.phase(), Phase::Running);
    assert_eq!(session.child(), Some(ChildHandle { group, state: ChildState::Running }));
    session
}

#[test]
fn basic_test() {
    let log = Transcript::new();
    let mut tool = MonzillaTool::new(&log);
    let help = "Usage: monzilla [OPTIONS] --glob <GLOB>... <COMMAND>...\n  -h, --help  Print help\n";
    let session = tool.run(Err(help.to_string()));
    assert!(session.is_none());
    assert_eq!(log.take(), vec![line("plain", help)]);
}

#[test]
fn a_run_begins_by_capturing_the_terminal() {
    let log = Transcript::new();
    let mut tool = MonzillaTool::new(&log);
    let session = tool.run(Ok(echo_hi())).unwrap();
    assert_eq!(session.phase(), Phase::Capturing);
    assert_eq!(session.pending(), Action::CaptureTerminal);
    assert_eq!(session.child(), None);
    assert_eq!(session.failure(), None);
    assert_eq!(session.exit_code(), 0);
    assert_eq!(session.configuration(), &echo_hi());
    assert_eq!(log.take(), vec![]);
}

#[test]
fn colors_are_switched_off_once_at_startup() {
    let log = Transcript::new();
    let mut tool = MonzillaTool::new(&log);
    let mut config = echo_hi();
    config.no_color = true;
    let session = tool.run(Ok(config));
    assert!(session.is_some());
    assert_eq!(log.take(), vec![line("color", "off")]);
}

#[test]
fn terminate_after_the_child_has_exited() {
    let log = Transcript::new();
    let mut tool = MonzillaTool::new(&log);
    let mut session = running(&mut tool, &log, 500);
    assert_eq!(tool.step(&mut session, Event::Key(UiEvent::Terminate)), Action::PollChild(500));
    assert_eq!(
        session.phase(),
        Phase::Stopping(StopReason::UserRequestedExit, Teardown::Polling)
    );
    assert_eq!(log.take(), vec![line("info", "Terminating...")]);
    assert_eq!(tool.step(&mut session, Event::ChildPolled(Some(0))), Action::AwaitExit(500));
    assert_eq!(
        session.child(),
        Some(ChildHandle { group: 500, state: ChildState::ExitedNormally(0) })
    );
    assert_eq!(tool.step(&mut session, Event::Completed), Action::RestoreTerminal(CAPTURED));
    assert_eq!(session.child(), None);
    assert_eq!(tool.step(&mut session, Event::Completed), Action::Exit(0));
    assert_eq!(session.phase(), Phase::Terminated);
    assert_eq!(session.failure(), None);
    assert_eq!(log.take(), vec![]);
}

#[test]
fn terminate_kills_a_running_child() {
    let log = Transcript::new();
    let mut tool = MonzillaTool::new(&log);
    let mut session = running(&mut tool, &log, 77);
    assert_eq!(tool.step(&mut session, Event::Key(UiEvent::Terminate)), Action::PollChild(77));
    assert_eq!(log.take(), vec![line("info", "Terminating...")]);
    assert_eq!(tool.step(&mut session, Event::ChildPolled(None)), Action::KillGroup(77));
    assert_eq!(log.take(), vec![line("warning", "Killing process group 77")]);
    assert_eq!(tool.step(&mut session, Event::Completed), Action::AwaitExit(77));
    assert_eq!(session.child(), Some(ChildHandle { group: 77, state: ChildState::Killed }));
    assert_eq!(tool.step(&mut session, Event::Completed), Action::RestoreTerminal(CAPTURED));
    assert_eq!(tool.step(&mut session, Event::Completed), Action::Exit(0));
    assert_eq!(log.take(), vec![]);
}

#[test]
fn nothing_is_spawned_after_a_terminate() {
    let log = Transcript::new();
    let mut tool = MonzillaTool::new(&log);
    let mut session = running(&mut tool, &log, 9);
    tool.step(&mut session, Event::Key(UiEvent::Terminate));
    let answers = vec![
        Event::Key(UiEvent::Restart),
        Event::Change(ChangeNotification::Changed),
        Event::ChildSpawned(10),
        Event::ChildPolled(None),
        Event::Key(UiEvent::Restart),
        Event::Completed,
        Event::Change(ChangeNotification::Changed),
        Event::Completed,
        Event::ChildSpawned(11),
        Event::Completed,
        Event::Completed,
        Event::Key(UiEvent::Restart),
    ];
    for event in answers {
        let action = tool.step(&mut session, event);
        assert_ne!(action, Action::Spawn);
    }
    assert_eq!(session.pending(), Action::Exit(0));
}

#[test]
fn restart_kills_waits_and_spawns_again() {
    let log = Transcript::new();
    let mut tool = MonzillaTool::new(&log);
    let mut session = running(&mut tool, &log, 41);
    assert_eq!(tool.step(&mut session, Event::Key(UiEvent::Restart)), Action::PollChild(41));
    assert_eq!(
        session.phase(),
        Phase::Stopping(StopReason::RestartRequested, Teardown::Polling)
    );
    assert_eq!(log.take(), vec![line("info", "Restarting...")]);
    assert_eq!(tool.step(&mut session, Event::ChildPolled(None)), Action::KillGroup(41));
    assert_eq!(log.take(), vec![line("warning", "Killing process group 41")]);
    assert_eq!(tool.step(&mut session, Event::Completed), Action::AwaitExit(41));
    assert_eq!(tool.step(&mut session, Event::Completed), Action::Spawn);
    assert_eq!(log.take(), launch_lines());
    assert_eq!(session.child(), None);
    assert_eq!(session.configuration(), &echo_hi());
    assert_eq!(tool.step(&mut session, Event::ChildSpawned(42)), Action::AwaitEvent);
    assert_eq!(session.child(), Some(ChildHandle { group: 42, state: ChildState::Running }));
}

#[test]
fn one_change_notification_gives_one_restart() {
    let log = Transcript::new();
    let mut tool = MonzillaTool::new(&log);
    let mut session = running(&mut tool, &log, 1000);
    let mut spawns = 1;
    let answers = vec![
        Event::Change(ChangeNotification::Changed),
        Event::ChildPolled(Some(0)),
        Event::Completed,
        Event::ChildSpawned(1001),
    ];
    for event in answers {
        if tool.step(&mut session, event) == Action::Spawn {
            spawns += 1;
        }
    }
    assert_eq!(spawns, 2);
    assert_eq!(session.pending(), Action::AwaitEvent);
    assert_eq!(session.child(), Some(ChildHandle { group: 1001, state: ChildState::Running }));
    assert_eq!(log.take(), launch_lines());
}

#[test]
fn a_change_stops_the_wait_with_its_reason() {
    let log = Transcript::new();
    let mut tool = MonzillaTool::new(&log);
    let mut session = running(&mut tool, &log, 5);
    assert_eq!(
        tool.step(&mut session, Event::Change(ChangeNotification::Changed)),
        Action::PollChild(5)
    );
    assert_eq!(session.phase(), Phase::Stopping(StopReason::FilesChanged, Teardown::Polling));
    assert_eq!(log.take(), vec![]);
}

#[test]
fn a_notification_during_teardown_is_left_for_the_next_wait() {
    let log = Transcript::new();
    let mut tool = MonzillaTool::new(&log);
    let mut session = running(&mut tool, &log, 5);
    tool.step(&mut session, Event::Change(ChangeNotification::Changed));
    let phase = session.phase();
    assert_eq!(
        tool.step(&mut session, Event::Change(ChangeNotification::Changed)),
        Action::PollChild(5)
    );
    assert_eq!(session.phase(), phase);
    assert_eq!(tool.step(&mut session, Event::Key(UiEvent::Terminate)), Action::PollChild(5));
    assert_eq!(session.phase(), phase);
    assert_eq!(log.take(), vec![]);
}

#[test]
fn a_watcher_fault_is_a_warning_and_the_wait_goes_on() {
    let log = Transcript::new();
    let mut tool = MonzillaTool::new(&log);
    let mut session = running(&mut tool, &log, 5);
    let fault = Event::Change(ChangeNotification::Failed("queue overflow".to_string()));
    assert_eq!(tool.step(&mut session, fault), Action::AwaitEvent);
    assert_eq!(session.phase(), Phase::Running);
    assert_eq!(session.failure(), None);
    assert_eq!(log.take(), vec![line("warning", "Watch error: queue overflow")]);
}

#[test]
fn a_capture_failure_ends_the_run_at_once() {
    let log = Transcript::new();
    let mut tool = MonzillaTool::new(&log);
    let mut session = tool.run(Ok(echo_hi())).unwrap();
    assert_eq!(tool.step(&mut session, Event::Failed("not a tty".to_string())), Action::Exit(1));
    assert_eq!(
        session.failure(),
        Some(&SupervisorError::TerminalCapture { cause: "not a tty".to_string() })
    );
    assert_eq!(session.exit_code(), 1);
    assert_eq!(log.take(), vec![]);
}

#[test]
fn a_raw_mode_failure_ends_the_run_at_once() {
    let log = Transcript::new();
    let mut tool = MonzillaTool::new(&log);
    let mut session = tool.run(Ok(echo_hi())).unwrap();
    tool.step(&mut session, Event::TerminalCaptured(CAPTURED, BITS));
    assert_eq!(tool.step(&mut session, Event::Failed("EIO".to_string())), Action::Exit(1));
    assert_eq!(
        session.failure(),
        Some(&SupervisorError::TerminalRaw { cause: "EIO".to_string() })
    );
}

#[test]
fn a_watcher_that_cannot_be_created_ends_the_run() {
    let log = Transcript::new();
    let mut tool = MonzillaTool::new(&log);
    let mut session = tool.run(Ok(echo_hi())).unwrap();
    tool.step(&mut session, Event::TerminalCaptured(CAPTURED, BITS));
    tool.step(&mut session, Event::Completed);
    assert_eq!(
        tool.step(&mut session, Event::Failed("limit".to_string())),
        Action::RestoreTerminal(CAPTURED)
    );
    assert_eq!(tool.step(&mut session, Event::Completed), Action::Exit(1));
    assert_eq!(
        session.failure(),
        Some(&SupervisorError::WatcherCreation { cause: "limit".to_string() })
    );
}

#[test]
fn a_path_that_cannot_be_watched_ends_the_run_before_any_spawn() {
    let log = Transcript::new();
    let mut tool = MonzillaTool::new(&log);
    let mut session = tool.run(Ok(echo_hi())).unwrap();
    let mut actions = vec![session.pending()];
    let answers = vec![
        Event::TerminalCaptured(CAPTURED, BITS),
        Event::Completed,
        Event::Completed,
        Event::Completed,
        Event::Failed("No such file or directory".to_string()),
        Event::Completed,
    ];
    for event in answers {
        actions.push(tool.step(&mut session, event));
    }
    assert_eq!(
        actions,
        vec![
            Action::CaptureTerminal,
            Action::EnterRawMode(RAW),
            Action::CreateWatcher(100),
            Action::WatchPath(0),
            Action::WatchPath(1),
            Action::RestoreTerminal(CAPTURED),
            Action::Exit(1),
        ]
    );
    let failure = session.failure().unwrap();
    assert_eq!(failure.kind(), ErrorKind::WatchSetup);
    assert_eq!(failure.message(), "Unable to watch file 'b.txt'");
    assert_eq!(failure.cause(), "No such file or directory");
    assert_eq!(session.child(), None);
    assert_eq!(log.take(), vec![]);
}

#[test]
fn without_paths_the_reader_starts_right_after_the_watcher() {
    let log = Transcript::new();
    let mut tool = MonzillaTool::new(&log);
    let mut config = echo_hi();
    config.paths = vec![];
    let mut session = tool.run(Ok(config)).unwrap();
    tool.step(&mut session, Event::TerminalCaptured(CAPTURED, BITS));
    tool.step(&mut session, Event::Completed);
    assert_eq!(tool.step(&mut session, Event::Completed), Action::StartKeystrokeReader);
}

#[test]
fn a_command_that_cannot_start_is_fatal() {
    let log = Transcript::new();
    let mut tool = MonzillaTool::new(&log);
    let mut session = ready_to_spawn(&mut tool, &log);
    assert_eq!(
        tool.step(&mut session, Event::Failed("No such file or directory".to_string())),
        Action::RestoreTerminal(CAPTURED)
    );
    assert_eq!(
        session.failure(),
        Some(&SupervisorError::Spawn {
            command: "echo hi".to_string(),
            cause: "No such file or directory".to_string(),
        })
    );
    assert_eq!(tool.step(&mut session, Event::Completed), Action::Exit(1));
    assert_eq!(tool.step(&mut session, Event::Completed), Action::Exit(1));
    assert_eq!(tool.step(&mut session, Event::ChildSpawned(3)), Action::Exit(1));
}

#[test]
fn a_poll_failure_is_fatal() {
    let log = Transcript::new();
    let mut tool = MonzillaTool::new(&log);
    let mut session = running(&mut tool, &log, 8);
    tool.step(&mut session, Event::Key(UiEvent::Restart));
    log.take();
    assert_eq!(
        tool.step(&mut session, Event::Failed("EINVAL".to_string())),
        Action::RestoreTerminal(CAPTURED)
    );
    assert_eq!(
        session.failure(),
        Some(&SupervisorError::ChildStatus { cause: "EINVAL".to_string() })
    );
    assert_eq!(session.child(), None);
}

#[test]
fn a_kill_failure_is_fatal() {
    let log = Transcript::new();
    let mut tool = MonzillaTool::new(&log);
    let mut session = running(&mut tool, &log, 8);
    tool.step(&mut session, Event::Key(UiEvent::Restart));
    tool.step(&mut session, Event::ChildPolled(None));
    log.take();
    assert_eq!(
        tool.step(&mut session, Event::Failed("EPERM".to_string())),
        Action::RestoreTerminal(CAPTURED)
    );
    assert_eq!(
        session.failure(),
        Some(&SupervisorError::Kill { group: 8, cause: "EPERM".to_string() })
    );
    assert_eq!(tool.step(&mut session, Event::Completed), Action::Exit(1));
    assert_eq!(log.take(), vec![]);
}

#[test]
fn a_kill_on_a_group_that_is_gone_is_a_warning() {
    let log = Transcript::new();
    let mut tool = MonzillaTool::new(&log);
    let mut session = running(&mut tool, &log, 8);
    tool.step(&mut session, Event::Key(UiEvent::Restart));
    tool.step(&mut session, Event::ChildPolled(None));
    log.take();
    assert_eq!(
        tool.step(&mut session, Event::Vanished("No such process".to_string())),
        Action::AwaitExit(8)
    );
    assert_eq!(session.failure(), None);
    assert_eq!(session.child(), Some(ChildHandle { group: 8, state: ChildState::Killed }));
    assert_eq!(
        log.take(),
        vec![line("warning", "Could not kill process group 8: No such process")]
    );
    assert_eq!(tool.step(&mut session, Event::Completed), Action::Spawn);
}

#[test]
fn a_wait_failure_is_fatal() {
    let log = Transcript::new();
    let mut tool = MonzillaTool::new(&log);
    let mut session = running(&mut tool, &log, 8);
    tool.step(&mut session, Event::Change(ChangeNotification::Changed));
    tool.step(&mut session, Event::ChildPolled(Some(2)));
    assert_eq!(
        tool.step(&mut session, Event::Failed("EINTR".to_string())),
        Action::RestoreTerminal(CAPTURED)
    );
    assert_eq!(session.failure(), Some(&SupervisorError::Wait { cause: "EINTR".to_string() }));
    assert_eq!(tool.step(&mut session, Event::Completed), Action::Exit(1));
}

#[test]
fn a_wait_on_a_child_that_is_gone_is_a_warning() {
    let log = Transcript::new();
    let mut tool = MonzillaTool::new(&log);
    let mut session = running(&mut tool, &log, 8);
    tool.step(&mut session, Event::Change(ChangeNotification::Changed));
    tool.step(&mut session, Event::ChildPolled(Some(2)));
    assert_eq!(
        tool.step(&mut session, Event::Vanished("No child processes".to_string())),
        Action::Spawn
    );
    let mut expected =
        vec![line("warning", "Could not wait for process to exit: No child processes")];
    expected.extend(launch_lines());
    assert_eq!(log.take(), expected);
    assert_eq!(session.failure(), None);
}

#[test]
fn a_wait_on_a_child_that_is_gone_still_ends_a_terminated_run() {
    let log = Transcript::new();
    let mut tool = MonzillaTool::new(&log);
    let mut session = running(&mut tool, &log, 8);
    tool.step(&mut session, Event::Key(UiEvent::Terminate));
    tool.step(&mut session, Event::ChildPolled(Some(0)));
    log.take();
    assert_eq!(
        tool.step(&mut session, Event::Vanished("No child processes".to_string())),
        Action::RestoreTerminal(CAPTURED)
    );
    assert_eq!(
        log.take(),
        vec![line("warning", "Could not wait for process to exit: No child processes")]
    );
    assert_eq!(tool.step(&mut session, Event::Completed), Action::Exit(0));
}

#[test]
fn a_restore_failure_is_a_warning_and_keeps_the_outcome() {
    let log = Transcript::new();
    let mut tool = MonzillaTool::new(&log);
    let mut session = running(&mut tool, &log, 8);
    tool.step(&mut session, Event::Key(UiEvent::Terminate));
    tool.step(&mut session, Event::ChildPolled(Some(0)));
    tool.step(&mut session, Event::Completed);
    log.take();
    assert_eq!(tool.step(&mut session, Event::Failed("EIO".to_string())), Action::Exit(0));
    assert_eq!(log.take(), vec![line("warning", "Unable to reset terminal I/O: EIO")]);
    assert_eq!(session.failure(), None);
}

#[test]
fn a_restore_failure_does_not_replace_the_error() {
    let log = Transcript::new();
    let mut tool = MonzillaTool::new(&log);
    let mut session = ready_to_spawn(&mut tool, &log);
    tool.step(&mut session, Event::Failed("not found".to_string()));
    assert_eq!(tool.step(&mut session, Event::Failed("EIO".to_string())), Action::Exit(1));
    assert_eq!(
        session.failure(),
        Some(&SupervisorError::Spawn {
            command: "echo hi".to_string(),
            cause: "not found".to_string(),
        })
    );
    assert_eq!(log.take(), vec![line("warning", "Unable to reset terminal I/O: EIO")]);
}

#[test]
fn the_terminal_gets_back_exactly_what_was_captured() {
    let log = Transcript::new();
    let mut tool = MonzillaTool::new(&log);
    let captured = TerminalState { local_flags: 0xdead_beef_0000_ffff };
    let bits = ModeBits { canonical: 0x100, echo: 0x8, signals: 0x80 };
    let mut session = tool.run(Ok(echo_hi())).unwrap();
    assert_eq!(
        tool.step(&mut session, Event::TerminalCaptured(captured, bits)),
        Action::EnterRawMode(TerminalState { local_flags: 0xdead_beef_0000_fe77 })
    );
    let answers = vec![
        Event::Completed,
        Event::Completed,
        Event::Completed,
        Event::Completed,
        Event::Completed,
        Event::ChildSpawned(1),
        Event::Key(UiEvent::Terminate),
        Event::ChildPolled(None),
        Event::Completed,
    ];
    for event in answers {
        let action = tool.step(&mut session, event);
        assert!(!matches!(action, Action::RestoreTerminal(_) | Action::Exit(_)));
    }
    assert_eq!(tool.step(&mut session, Event::Completed), Action::RestoreTerminal(captured));
    assert_eq!(tool.step(&mut session, Event::Completed), Action::Exit(0));
}

#[test]
fn an_event_that_answers_nothing_changes_nothing() {
    let log = Transcript::new();
    let mut tool = MonzillaTool::new(&log);
    let mut session = tool.run(Ok(echo_hi())).unwrap();
    let strays = vec![
        Event::Completed,
        Event::ChildSpawned(1),
        Event::Key(UiEvent::Terminate),
        Event::Change(ChangeNotification::Changed),
        Event::ChildPolled(None),
        Event::Vanished("x".to_string()),
    ];
    for event in strays {
        assert_eq!(tool.step(&mut session, event), Action::CaptureTerminal);
        assert_eq!(session.phase(), Phase::Capturing);
    }
    assert_eq!(log.take(), vec![]);
}

#[test]
fn the_end_of_a_run_is_final() {
    let log = Transcript::new();
    let mut tool = MonzillaTool::new(&log);
    let mut session = tool.run(Ok(echo_hi())).unwrap();
    tool.step(&mut session, Event::Failed("not a tty".to_string()));
    let later = vec![
        Event::TerminalCaptured(CAPTURED, BITS),
        Event::Completed,
        Event::Failed("again".to_string()),
        Event::ChildSpawned(1),
    ];
    for event in later {
        assert_eq!(tool.step(&mut session, event), Action::Exit(1));
        assert_eq!(session.phase(), Phase::Terminated);
    }
    assert_eq!(
        session.failure(),
        Some(&SupervisorError::TerminalCapture { cause: "not a tty".to_string() })
    );
}

#[test]
fn advance_returns_the_lines_it_writes() {
    let mut session = Session::begin(echo_hi());
    assert_eq!(session.advance(Event::TerminalCaptured(CAPTURED, BITS)), vec![]);
    assert_eq!(session.advance(Event::Completed), vec![]);
    assert_eq!(session.advance(Event::Completed), vec![]);
    assert_eq!(session.advance(Event::Completed), vec![]);
    assert_eq!(session.advance(Event::Completed), vec![]);
    assert_eq!(
        session.advance(Event::Completed),
        vec![Notice::Launching("echo hi".to_string()), Notice::Controls]
    );
    assert_eq!(session.advance(Event::ChildSpawned(6)), vec![]);
    assert_eq!(session.advance(Event::Key(UiEvent::Restart)), vec![Notice::Restarting]);
    assert_eq!(session.advance(Event::ChildPolled(None)), vec![Notice::Killing(6)]);
    assert_eq!(
        session.advance(Event::Vanished("gone".to_string())),
        vec![Notice::KillSkipped(6, "gone".to_string())]
    );
    assert_eq!(
        session.advance(Event::Vanished("reaped".to_string())),
        vec![
            Notice::WaitSkipped("reaped".to_string()),
            Notice::Launching("echo hi".to_string()),
            Notice::Controls,
        ]
    );
    assert_eq!(session.pending(), Action::Spawn);
}

#[test]
fn lines_are_written_in_order_on_their_channels() {
    let log = Transcript::new();
    let tool = MonzillaTool::new(&log);
    tool.write_all(&vec![
        Notice::Usage("usage".to_string()),
        Notice::Terminating,
        Notice::Killing(1),
    ]);
    assert_eq!(
        log.take(),
        vec![
            line("plain", "usage"),
            line("info", "Terminating..."),
            line("warning", "Killing process group 1"),
        ]
    );
}

#[test]
fn the_command_line_of_a_configuration() {
    assert_eq!(echo_hi().command_line(), "echo hi");
    let mut bare = echo_hi();
    bare.arguments = vec![];
    assert_eq!(bare.command_line(), "echo");
}

#[test]
fn a_child_is_awaited_only_once_it_has_ended() {
    let log = Transcript::new();
    let mut tool = MonzillaTool::new(&log);
    let mut session = running(&mut tool, &log, 3);
    let answers = vec![
        Event::Change(ChangeNotification::Changed),
        Event::ChildPolled(None),
        Event::Completed,
        Event::Completed,
        Event::ChildSpawned(4),
        Event::Key(UiEvent::Restart),
        Event::ChildPolled(Some(1)),
        Event::Completed,
        Event::ChildSpawned(5),
        Event::Key(UiEvent::Terminate),
        Event::ChildPolled(None),
        Event::Vanished("No such process".to_string()),
        Event::Completed,
    ];
    let mut awaited = 0;
    for event in answers {
        let action = tool.step(&mut session, event);
        match action {
            Action::AwaitExit(group) => {
                awaited += 1;
                let child = session.child().unwrap();
                assert_eq!(child.group, group);
                assert_ne!(child.state, ChildState::Running);
            }
            Action::Spawn => assert_eq!(session.child(), None),
            _ => {}
        }
    }
    assert_eq!(awaited, 3);
    assert_eq!(session.pending(), Action::RestoreTerminal(CAPTURED));
}

#[test]
fn a_tool_writes_to_the_sink_it_was_bound_to() {
    let first = Transcript::new();
    let second = Transcript::new();
    let mut tool = MonzillaTool::new(&second);
    assert!(tool.run(Err("usage".to_string())).is_none());
    tool.write_all(&vec![Notice::Restarting]);
    assert_eq!(first.take(), vec![]);
    assert_eq!(second.take(), vec![line("plain", "usage"), line("info", "Restarting...")]);
}

#[test]
fn a_tool_can_be_bound_to_a_sink_behind_a_trait_object() {
    let log = Transcript::new();
    let sink: &dyn MonzillaLog = &log;
    let tool = MonzillaTool::new(sink);
    tool.write_all(&vec![Notice::Terminating]);
    assert_eq!(log.take(), vec![line("info", "Terminating...")]);
}
