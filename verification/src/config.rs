//! What one invocation of the supervisor is asked to do.

use crate::text::{join_words, joined};
use vstd::prelude::*;

verus! {

/// The parsed request for one supervised run. It does not change while the
/// supervisor runs.
#[derive(Debug, PartialEq, Eq)]
pub struct RunConfiguration {
    /// Whether colored rendering is switched off before anything is written.
    pub no_color: bool,
    /// The directory in which the command runs.
    pub working_dir: String,
    /// The quiet period, in milliseconds, over which changes are coalesced.
    pub debounce_millis: u64,
    /// The resolved paths to watch, in the order in which they are registered.
    pub paths: Vec<String>,
    /// The program to run.
    pub program: String,
    /// The arguments handed to the program.
    pub arguments: Vec<String>,
}

/// The mathematical content of a [`RunConfiguration`].
pub struct ConfigurationView {
    pub no_color: bool,
    pub working_dir: Seq<char>,
    pub debounce_millis: u64,
    pub paths: Seq<Seq<char>>,
    pub program: Seq<char>,
    pub arguments: Seq<Seq<char>>,
}

impl ConfigurationView {
    /// The command as it is shown in messages: the program and its arguments,
    /// joined by single spaces.
    pub open spec fn command_line(self) -> Seq<char> {
        joined(seq![self.program] + self.arguments)
    }
}

impl View for RunConfiguration {
    type V = ConfigurationView;

    open spec fn view(&self) -> ConfigurationView {
        ConfigurationView {
            no_color: self.no_color,
            working_dir: self.working_dir@,
            debounce_millis: self.debounce_millis,
            paths: self.paths.deep_view(),
            program: self.program@,
            arguments: self.arguments.deep_view(),
        }
    }
}

impl RunConfiguration {
    /// The command as it is shown in messages.
    pub fn command_line(&self) -> (line: String)
        ensures
            line@ == self@.command_line(),
    {
        join_words(self.program.as_str(), &self.arguments)
    }
}

} // verus!
