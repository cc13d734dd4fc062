//! The supervisor as its host sees it: a tool bound to an output sink.

use crate::config::RunConfiguration;
use crate::machine::{Action, Event, SessionView};
use crate::notice::{MonzillaLog, Notice};
use crate::session::Session;
use vstd::prelude::*;

verus! {

/// The supervisor, bound to the sink it writes to.
pub struct MonzillaTool<'a, L: MonzillaLog + ?Sized> {
    log: &'a L,
}

impl<'a, L: MonzillaLog + ?Sized> MonzillaTool<'a, L> {
    /// The sink every line of the supervisor goes to.
    pub closed spec fn sink(&self) -> &'a L {
        self.log
    }

    /// Binds the supervisor to a sink: the tool writes to `log`.
    pub fn new(log: &'a L) -> (tool: MonzillaTool<'a, L>)
        ensures
            tool.sink() == log,
    {
        MonzillaTool { log }
    }

    /// Writes the lines to the sink, first to last, each on the channel of
    /// its severity.
    pub fn write_all(&self, notices: &Vec<Notice>) {
        let mut i: usize = 0;
        while i < notices.len()
            invariant
                i <= notices.len(),
            decreases notices.len() - i,
        {
            notices[i].write_to(self.log);
            i += 1;
        }
    }

    /// Starts an invocation. Where the argument parser produced a text in
    /// place of a configuration, the text goes to the plain channel and there
    /// is nothing to supervise: the invocation is over, with exit code 0.
    /// Otherwise colors are switched off if the configuration says so, and a
    /// session begins.
    pub fn run(&mut self, request: Result<RunConfiguration, String>) -> (session: Option<Session>)
        ensures
            match request {
                Ok(config) => session matches Some(begun) && begun.wf() && begun@
                    == SessionView::begin(config@),
                Err(_) => session is None,
            },
    {
        match request {
            Ok(config) => {
                if config.no_color {
                    self.log.disable_color();
                }
                Some(Session::begin(config))
            },
            Err(usage) => {
                Notice::Usage(usage).write_to(self.log);
                None
            },
        }
    }

    /// Hands the session the event that answers its pending action, writes
    /// the lines of that step to the sink and returns the action to perform
    /// next.
    pub fn step(&self, session: &mut Session, event: Event) -> (action: Action)
        requires
            old(session).wf(),
        ensures
            final(session).wf(),
            final(session)@ == old(session)@.step(event@).next,
            action == final(session)@.pending(),
    {
        let notices = session.advance(event);
        self.write_all(&notices);
        session.pending()
    }
}

} // verus!
