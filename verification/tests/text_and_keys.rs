use monzilla_rs::keys::{RESTART_KEY, TERMINATE_KEY};
use monzilla_rs::text::{decimal, join_words};
use monzilla_rs::{classify_key, raw_mode, ModeBits, TerminalState, UiEvent};

#[test]
fn control_c_terminates() {
    assert_eq!(TERMINATE_KEY, 3);
    assert_eq!(classify_key(3), Some(UiEvent::Terminate));
}

#[test]
fn control_r_restarts() {
    assert_eq!(RESTART_KEY, 18);
    assert_eq!(classify_key(18), Some(UiEvent::Restart));
}

#[test]
fn every_other_byte_is_discarded() {
    let mut byte: u8 = 0;
    loop {
        if byte != 3 && byte != 18 {
            assert_eq!(classify_key(byte), None);
        }
        if byte == 255 {
            break;
        }
        byte += 1;
    }
}

#[test]
fn neighbours_of_the_control_bytes_mean_nothing() {
    assert_eq!(classify_key(2), None);
    assert_eq!(classify_key(4), None);
    assert_eq!(classify_key(17), None);
    assert_eq!(classify_key(19), None);
    assert_eq!(classify_key(b'r'), None);
    assert_eq!(classify_key(b'c'), None);
}

#[test]
fn decimal_of_small_numbers() {
    assert_eq!(decimal(0), "0");
    assert_eq!(decimal(7), "7");
    assert_eq!(decimal(9), "9");
    assert_eq!(decimal(10), "10");
    assert_eq!(decimal(4242), "4242");
}

#[test]
fn decimal_of_the_largest_number() {
    assert_eq!(decimal(u32::MAX), "4294967295");
    assert_eq!(decimal(1_000_000_000), "1000000000");
}

#[test]
fn decimal_agrees_with_the_standard_library() {
    let mut n: u32 = 1;
    while n < 400_000_000 {
        assert_eq!(decimal(n), n.to_string());
        assert_eq!(decimal(n - 1), (n - 1).to_string());
        n = n * 3 + 1;
    }
}

#[test]
fn a_program_without_arguments_is_its_own_line() {
    assert_eq!(join_words("make", &vec![]), "make");
}

#[test]
fn arguments_are_joined_by_single_spaces() {
    let arguments = vec!["build".to_string(), "--release".to_string()];
    assert_eq!(join_words("cargo", &arguments), "cargo build --release");
}

#[test]
fn empty_words_keep_their_separators() {
    let arguments = vec!["".to_string(), "x".to_string()];
    assert_eq!(join_words("echo", &arguments), "echo  x");
}

#[test]
fn raw_mode_clears_the_three_modes() {
    let bits = ModeBits { canonical: 0o2, echo: 0o10, signals: 0o1 };
    let captured = TerminalState { local_flags: 0x8a3b };
    let raw = raw_mode(captured, bits);
    assert_eq!(raw, TerminalState { local_flags: 0x8a30 });
    assert_eq!(raw.local_flags & 0o2, 0);
    assert_eq!(raw.local_flags & 0o10, 0);
    assert_eq!(raw.local_flags & 0o1, 0);
}

#[test]
fn raw_mode_keeps_every_other_bit() {
    let bits = ModeBits { canonical: 0x100, echo: 0x8, signals: 0x80 };
    let captured = TerminalState { local_flags: u64::MAX };
    let raw = raw_mode(captured, bits);
    assert_eq!(raw.local_flags, u64::MAX ^ 0x188);
    assert_eq!(raw_mode(raw, bits), raw);
}

#[test]
fn raw_mode_of_a_raw_terminal_changes_nothing() {
    let bits = ModeBits { canonical: 0o2, echo: 0o10, signals: 0o1 };
    let captured = TerminalState { local_flags: 0x8a30 };
    assert_eq!(raw_mode(captured, bits), captured);
}
