//! What holds of every run of the supervisor.

use crate::error::ErrorView;
use crate::keys::UiEvent;
use crate::machine::{
    Action, ChangeView, EventView, Phase, SessionView, StopReason, Teardown, TerminalGuard,
};
use crate::notice::NoticeView;
use vstd::prelude::*;

verus! {

/// The session is still setting up: no child was ever asked for.
pub open spec fn in_setup(s: SessionView) -> bool {
    s.phase is Capturing || s.phase is EnteringRaw || s.phase is CreatingWatcher
        || s.phase is Registering || s.phase is StartingReader
}

/// The session is on its way out: the user asked to leave or a fatal error
/// occurred, and what is left is to take the child down and put the terminal
/// back.
pub open spec fn closing(s: SessionView) -> bool {
    s.phase is Restoring || s.phase is Terminated || s.phase matches Phase::Stopping(
        StopReason::UserRequestedExit,
        _,
    )
}

/// Every step leads from a state a run can be in to another such state.
pub proof fn lemma_step_keeps_wf(s: SessionView, event: EventView)
    requires
        s.wf(),
    ensures
        s.on(event).wf(),
{
}

/// Every state reached from the beginning of a run, whatever the events, is a
/// state a run can be in.
pub proof fn lemma_after_keeps_wf(s: SessionView, events: Seq<EventView>)
    requires
        s.wf(),
    ensures
        s.after(events).wf(),
    decreases events.len(),
{
    if events.len() > 0 {
        lemma_after_keeps_wf(s, events.drop_last());
        lemma_step_keeps_wf(s.after(events.drop_last()), events.last());
    }
}

/// A run begins in a state a run can be in.
pub proof fn lemma_begin_is_wf(config: crate::config::ConfigurationView)
    ensures
        SessionView::begin(config).wf(),
        in_setup(SessionView::begin(config)),
{
}

/// The configuration never changes during a run.
pub proof fn lemma_configuration_is_fixed(s: SessionView, events: Seq<EventView>)
    ensures
        s.after(events).config == s.config,
    decreases events.len(),
{
    if events.len() > 0 {
        lemma_configuration_is_fixed(s, events.drop_last());
    }
}

/// No overlap, step by step. A spawn is asked for only while no child is
/// held. The machine comes to ask for one only when the keystroke reader has
/// started, which is the first start, or when the wait for the previous child
/// has returned. A child is taken on only in answer to a spawn, and a child
/// that is held is given up only when the wait for it has returned or when a
/// fatal error ends the run.
pub proof fn lemma_spawn_follows_reap(s: SessionView, event: EventView)
    requires
        s.wf(),
    ensures
        s.pending() == Action::Spawn ==> s.child is None,
        s.on(event).phase is Starting && !(s.phase is Starting) ==> {
            ||| s.phase is StartingReader && event is Completed
            ||| s.phase matches Phase::Stopping(reason, Teardown::Reaping) && reason
                != StopReason::UserRequestedExit && (event is Completed || event is Vanished)
        },
        s.child is None && s.on(event).child is Some ==> s.pending() == Action::Spawn
            && event is ChildSpawned,
        s.child is Some && s.on(event).child is None ==> {
            ||| s.phase matches Phase::Stopping(_, Teardown::Reaping) && (event is Completed
                || event is Vanished)
            ||| s.on(event).failure is Some && s.on(event).phase is Restoring
        },
        s.child is Some && s.on(event).child is Some ==> s.on(event).child.unwrap().group
            == s.child.unwrap().group,
{
}

/// No overlap, over whole runs: whatever events arrive, a spawn is asked for
/// only while no child is held, and a child is held exactly while the session
/// is running or stopping.
pub proof fn lemma_no_overlap(s: SessionView, events: Seq<EventView>)
    requires
        s.wf(),
    ensures
        s.after(events).pending() == Action::Spawn ==> s.after(events).child is None,
        s.after(events).child is Some <==> s.after(events).phase is Running || s.after(
            events,
        ).phase is Stopping,
{
    lemma_after_keeps_wf(s, events);
}

/// A child is awaited only once it is known to have exited or its group was
/// killed, and polled or killed only while it is taken to run.
pub proof fn lemma_killed_if_running(s: SessionView, events: Seq<EventView>)
    requires
        s.wf(),
    ensures
        s.after(events).pending() is AwaitExit ==> s.after(events).child is Some && !(s.after(
            events,
        ).child.unwrap().state is Running),
        s.after(events).pending() is PollChild || s.after(events).pending() is KillGroup
            || s.after(events).pending() is AwaitEvent ==> s.after(events).child is Some
            && s.after(events).child.unwrap().state is Running,
{
    lemma_after_keeps_wf(s, events);
}

/// No child is left behind. Whenever a child that was held is held no more
/// and the run has not failed, the wait for that child has returned: at some
/// earlier moment the session was awaiting its exit and the answer came.
pub proof fn lemma_released_by_wait(s: SessionView, events: Seq<EventView>) -> (k: int)
    requires
        s.wf(),
        s.child is Some,
        s.after(events).child is None,
        s.after(events).failure is None,
    ensures
        0 <= k < events.len(),
        s.after(events.take(k)).pending() is AwaitExit,
        events[k] is Completed || events[k] is Vanished,
        s.after(events.take(k + 1)).child is None,
    decreases events.len(),
{
    let shorter = events.drop_last();
    let before = s.after(shorter);
    lemma_after_keeps_wf(s, shorter);
    if before.child is Some {
        lemma_spawn_follows_reap(before, events.last());
        assert(events.take(events.len() as int) =~= events);
        events.len() - 1
    } else {
        if before.failure is Some {
            lemma_failure_is_kept(before, seq![events.last()]);
        }
        let k = lemma_released_by_wait(s, shorter);
        assert(shorter.take(k) =~= events.take(k));
        assert(shorter.take(k + 1) =~= events.take(k + 1));
        k
    }
}

/// An event is consumed only where it answers the pending action: a change
/// notification or a key that arrives while the session is not waiting for
/// one changes nothing and writes nothing.
pub proof fn lemma_only_the_wait_consumes(s: SessionView, event: EventView)
    requires
        !(s.phase is Running),
        event is Change || event is Key,
    ensures
        s.step(event).next == s,
        s.step(event).notices == Seq::<NoticeView>::empty(),
{
}

/// One change notification, one restart. A notification that arrives while
/// the child runs stops the wait with the reason `FilesChanged`; the child is
/// killed if it still runs and awaited in either case; the command is then
/// announced and asked for again, once, with the configuration unchanged.
pub proof fn lemma_change_restarts_once(s: SessionView, code: i32)
    requires
        s.wf(),
        s.phase is Running,
    ensures
        ({
            let group = s.child.unwrap().group;
            let stopped = s.on(EventView::Change(ChangeView::Changed));
            let killing = stopped.on(EventView::ChildPolled(None));
            let killed = killing.on(EventView::Completed);
            let exited = stopped.on(EventView::ChildPolled(Some(code)));
            &&& stopped.phase == Phase::Stopping(StopReason::FilesChanged, Teardown::Polling)
            &&& stopped.pending() == Action::PollChild(group)
            &&& killing.pending() == Action::KillGroup(group)
            &&& killed.pending() == Action::AwaitExit(group)
            &&& exited.pending() == Action::AwaitExit(group)
            &&& killed.step(EventView::Completed) == s.launching()
            &&& exited.step(EventView::Completed) == s.launching()
            &&& s.launching().next.pending() == Action::Spawn
            &&& s.launching().next.config == s.config
        }),
{
}

/// The restart key. Pressed while the child runs, it is announced, the child
/// is killed if it still runs and awaited in either case, and the command is
/// asked for again with the configuration unchanged.
pub proof fn lemma_restart_key_respawns(s: SessionView, code: i32)
    requires
        s.wf(),
        s.phase is Running,
    ensures
        ({
            let group = s.child.unwrap().group;
            let first = s.step(EventView::Key(UiEvent::Restart));
            let stopped = first.next;
            let killing = stopped.step(EventView::ChildPolled(None));
            let killed = killing.next.on(EventView::Completed);
            let exited = stopped.on(EventView::ChildPolled(Some(code)));
            &&& first.notices == seq![NoticeView::Restarting]
            &&& stopped.phase == Phase::Stopping(StopReason::RestartRequested, Teardown::Polling)
            &&& stopped.pending() == Action::PollChild(group)
            &&& killing.notices == seq![NoticeView::Killing(group)]
            &&& killing.next.pending() == Action::KillGroup(group)
            &&& killed.pending() == Action::AwaitExit(group)
            &&& exited.pending() == Action::AwaitExit(group)
            &&& killed.step(EventView::Completed) == s.launching()
            &&& exited.step(EventView::Completed) == s.launching()
            &&& s.launching().next.pending() == Action::Spawn
            &&& s.launching().next.config == s.config
        }),
{
}

/// The terminate key. Pressed while the child runs, it is announced, the
/// child is killed if it still runs and awaited in either case, the terminal
/// is put back, and the run ends with exit code 0.
pub proof fn lemma_terminate_key_exits(s: SessionView, code: i32)
    requires
        s.wf(),
        s.phase is Running,
    ensures
        ({
            let group = s.child.unwrap().group;
            let first = s.step(EventView::Key(UiEvent::Terminate));
            let stopped = first.next;
            let killing = stopped.step(EventView::ChildPolled(None));
            let killed = killing.next.on(EventView::Completed);
            let exited = stopped.on(EventView::ChildPolled(Some(code)));
            let reaped = killed.on(EventView::Completed);
            let over = reaped.on(EventView::Completed);
            &&& first.notices == seq![NoticeView::Terminating]
            &&& stopped.phase == Phase::Stopping(StopReason::UserRequestedExit, Teardown::Polling)
            &&& stopped.pending() == Action::PollChild(group)
            &&& killing.notices == seq![NoticeView::Killing(group)]
            &&& killing.next.pending() == Action::KillGroup(group)
            &&& killed.pending() == Action::AwaitExit(group)
            &&& exited.pending() == Action::AwaitExit(group)
            &&& exited.on(EventView::Completed) == reaped
            &&& reaped.child is None
            &&& reaped.pending() == Action::RestoreTerminal(s.captured().unwrap())
            &&& over.pending() == Action::Exit(0)
        }),
{
}

/// Once the session is on its way out it stays so: whatever events arrive,
/// no spawn is asked for again.
pub proof fn lemma_closing_never_spawns(s: SessionView, events: Seq<EventView>)
    requires
        s.wf(),
        closing(s),
    ensures
        closing(s.after(events)),
        s.after(events).pending() != Action::Spawn,
    decreases events.len(),
{
    if events.len() > 0 {
        lemma_closing_never_spawns(s, events.drop_last());
        lemma_after_keeps_wf(s, events.drop_last());
    }
}

/// A fatal error is never replaced: once the run has failed, the error and
/// the exit code 1 stay, whatever comes after, a failure to put the terminal
/// back included.
pub proof fn lemma_failure_is_kept(s: SessionView, events: Seq<EventView>)
    requires
        s.wf(),
        s.failure is Some,
    ensures
        s.after(events).failure == s.failure,
        s.after(events).exit_code() == 1,
        closing(s.after(events)),
    decreases events.len(),
{
    if events.len() > 0 {
        lemma_failure_is_kept(s, events.drop_last());
        lemma_after_keeps_wf(s, events.drop_last());
    }
}

/// The terminal guard, step by step. The configuration that was captured is
/// never changed. While the terminal is in raw mode the only way to the end
/// of the run leads through the restoring phase, whose action carries exactly
/// the captured configuration; and the answer to that action, success or
/// failure, ends the run.
pub proof fn lemma_guard_step(s: SessionView, event: EventView)
    requires
        s.wf(),
    ensures
        s.captured() is Some ==> s.on(event).captured() == s.captured(),
        s.terminal is Raw ==> s.pending() != Action::Exit(0) && s.pending() != Action::Exit(1),
        s.terminal is Raw && s.on(event).phase is Terminated ==> s.pending()
            == Action::RestoreTerminal(s.captured().unwrap()) && s.on(event).terminal
            == TerminalGuard::Released(s.captured().unwrap()),
        s.phase is Restoring && (event is Completed || event is Failed) ==> s.on(
            event,
        ).phase is Terminated,
        s.phase is Terminated ==> s.on(event) == s,
{
}

/// The terminal guard, over whole runs. From the moment the terminal is in
/// raw mode, whatever events arrive, the session either still holds the
/// terminal in raw mode with the same captured configuration, or the run is
/// over and that configuration was handed back.
pub proof fn lemma_terminal_is_restored(
    s: SessionView,
    events: Seq<EventView>,
)
    requires
        s.wf(),
        s.terminal is Raw,
    ensures
        ({
            let original = s.captured().unwrap();
            let t = s.after(events);
            if t.phase is Terminated {
                t.terminal == TerminalGuard::Released(original)
            } else {
                t.terminal == TerminalGuard::Raw(original)
            }
        }),
    decreases events.len(),
{
    if events.len() > 0 {
        lemma_terminal_is_restored(s, events.drop_last());
        lemma_after_keeps_wf(s, events.drop_last());
    }
}

/// A path that cannot be watched ends the run: the error names the path, the
/// terminal is put back next, the exit code is 1, and no spawn is asked for
/// afterwards, whatever events arrive.
pub proof fn lemma_watch_failure_aborts(
    s: SessionView,
    cause: Seq<char>,
    events: Seq<EventView>,
)
    requires
        s.wf(),
        s.phase is Registering,
    ensures
        ({
            let index = s.phase->Registering_0;
            let failed = s.on(EventView::Failed(cause));
            &&& failed.failure == Some(
                ErrorView::WatchRegistration { path: s.config.paths[index as int], cause },
            )
            &&& failed.pending() == Action::RestoreTerminal(s.captured().unwrap())
            &&& failed.after(events).exit_code() == 1
            &&& failed.after(events).pending() != Action::Spawn
            &&& failed.after(events).child is None
        }),
{
    let failed = s.on(EventView::Failed(cause));
    lemma_failure_is_kept(failed, events);
    lemma_closing_never_spawns(failed, events);
    lemma_after_keeps_wf(failed, events);
}

/// While a session is setting up, no spawn was asked for at any earlier
/// moment of the run, and no child was held.
pub proof fn lemma_setup_precedes_spawn(s: SessionView, events: Seq<EventView>, k: int)
    requires
        s.wf(),
        0 <= k <= events.len(),
        in_setup(s.after(events)),
    ensures
        in_setup(s.after(events.take(k))),
        s.after(events.take(k)).pending() != Action::Spawn,
        s.after(events.take(k)).child is None,
    decreases events.len(),
{
    if k == events.len() {
        assert(events.take(k) =~= events);
        lemma_after_keeps_wf(s, events);
    } else {
        let shorter = events.drop_last();
        lemma_after_keeps_wf(s, shorter);
        assert(shorter.take(k) =~= events.take(k));
        lemma_setup_precedes_spawn(s, shorter, k);
    }
}

} // verus!
