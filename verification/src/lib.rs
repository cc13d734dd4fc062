//! A file-watching process supervisor, as a verified state machine.
//!
//! The supervisor watches a set of paths and restarts a command whenever one
//! of them changes, or when the user asks for it with a control key. What is
//! verified here is every decision of that loop. The host program performs
//! the actions the machine asks for (terminal, watcher, processes, keyboard)
//! and reports back what happened.

pub mod config;
pub mod error;
pub mod globs;
pub mod keys;
pub mod laws;
pub mod machine;
pub mod notice;
pub mod session;
pub mod terminal;
pub mod text;
pub mod tool;

pub use config::RunConfiguration;
pub use error::{ErrorKind, SupervisorError};
pub use globs::{gather_paths, GlobEntry};
pub use keys::{classify_key, UiEvent};
pub use machine::{
    Action, ChangeNotification, ChildHandle, ChildState, Event, Phase, StopReason, Teardown,
    TerminalGuard,
};
pub use notice::{MonzillaLog, Notice, Severity};
pub use session::Session;
pub use terminal::{raw_mode, ModeBits, TerminalState};
pub use tool::MonzillaTool;
