//! Terminal mode guard: the arithmetic of entering raw mode.
//!
//! The guard captures the terminal's local-mode word, derives from it the
//! word for raw input (canonical mode, echo and signal generation switched
//! off) and later hands the captured word back unchanged.

use vstd::prelude::*;

verus! {

/// The captured local-mode word of the terminal's line discipline.
#[derive(Clone, Copy, Debug, PartialEq, Eq, Structural)]
pub struct TerminalState {
    pub local_flags: u64,
}

/// The platform's bit masks for the three local modes that raw input
/// switches off.
#[derive(Clone, Copy, Debug, PartialEq, Eq, Structural)]
pub struct ModeBits {
    pub canonical: u64,
    pub echo: u64,
    pub signals: u64,
}

impl ModeBits {
    /// Every bit that raw mode clears.
    pub open spec fn mask(self) -> u64 {
        self.canonical | self.echo | self.signals
    }
}

/// The raw counterpart of a terminal state: the same word with the bits of
/// `bits` cleared.
pub open spec fn raw_of(state: TerminalState, bits: ModeBits) -> TerminalState {
    TerminalState { local_flags: state.local_flags & !bits.mask() }
}

/// Derives the raw-mode configuration from a captured one.
pub fn raw_mode(state: TerminalState, bits: ModeBits) -> (raw: TerminalState)
    ensures
        raw == raw_of(state, bits),
{
    TerminalState { local_flags: state.local_flags & !(bits.canonical | bits.echo | bits.signals) }
}

/// In raw mode none of the three modes is on, and every other bit of the
/// word is as it was captured.
pub proof fn lemma_raw_clears_only_mode_bits(state: TerminalState, bits: ModeBits)
    ensures
        raw_of(state, bits).local_flags & bits.canonical == 0,
        raw_of(state, bits).local_flags & bits.echo == 0,
        raw_of(state, bits).local_flags & bits.signals == 0,
        raw_of(state, bits).local_flags | (state.local_flags & bits.mask()) == state.local_flags,
        raw_of(state, bits).local_flags & !bits.mask() == state.local_flags & !bits.mask(),
{
    let f = state.local_flags;
    let c = bits.canonical;
    let e = bits.echo;
    let s = bits.signals;
    assert((f & !(c | e | s)) & c == 0) by (bit_vector);
    assert((f & !(c | e | s)) & e == 0) by (bit_vector);
    assert((f & !(c | e | s)) & s == 0) by (bit_vector);
    assert((f & !(c | e | s)) | (f & (c | e | s)) == f) by (bit_vector);
    assert((f & !(c | e | s)) & !(c | e | s) == f & !(c | e | s)) by (bit_vector);
}

/// Entering raw mode twice is the same as entering it once.
pub proof fn lemma_raw_is_idempotent(state: TerminalState, bits: ModeBits)
    ensures
        raw_of(raw_of(state, bits), bits) == raw_of(state, bits),
{
    let f = state.local_flags;
    let m = bits.mask();
    assert((f & !m) & !m == f & !m) by (bit_vector);
}

} // verus!
