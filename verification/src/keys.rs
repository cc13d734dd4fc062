//! Keyboard control protocol: the two control bytes that the supervisor
//! reacts to while the terminal is in raw mode.

use vstd::prelude::*;

verus! {

/// The byte a raw terminal delivers for Control+C.
pub const TERMINATE_KEY: u8 = 3;

/// The byte a raw terminal delivers for Control+R.
pub const RESTART_KEY: u8 = 18;

/// A command typed by the user into the controlling terminal.
#[derive(Clone, Copy, Debug, PartialEq, Eq, Structural)]
pub enum UiEvent {
    /// Stop the child and leave the supervisor.
    Terminate,
    /// Stop the child and start it again.
    Restart,
}

/// What a single keystroke byte means: byte 3 terminates, byte 18 restarts,
/// every other byte means nothing.
pub open spec fn key_meaning(byte: u8) -> Option<UiEvent> {
    if byte == 3 {
        Some(UiEvent::Terminate)
    } else if byte == 18 {
        Some(UiEvent::Restart)
    } else {
        None
    }
}

/// Classifies one byte read from standard input. `None` means the byte is
/// discarded and the reader goes on to the next one.
pub fn classify_key(byte: u8) -> (event: Option<UiEvent>)
    ensures
        event == key_meaning(byte),
{
    if byte == TERMINATE_KEY {
        Some(UiEvent::Terminate)
    } else if byte == RESTART_KEY {
        Some(UiEvent::Restart)
    } else {
        None
    }
}

} // verus!
