//! Text helpers for the messages the supervisor writes: decimal numbers and
//! command lines.

use vstd::prelude::*;

verus! {

/// The character of a decimal digit.
pub open spec fn digit_char(d: nat) -> char {
    if d == 0 {
        '0'
    } else if d == 1 {
        '1'
    } else if d == 2 {
        '2'
    } else if d == 3 {
        '3'
    } else if d == 4 {
        '4'
    } else if d == 5 {
        '5'
    } else if d == 6 {
        '6'
    } else if d == 7 {
        '7'
    } else if d == 8 {
        '8'
    } else {
        '9'
    }
}

/// A natural number written in base ten, without leading zeros.
pub open spec fn decimal_text(n: nat) -> Seq<char>
    decreases n,
{
    if n < 10 {
        seq![digit_char(n)]
    } else {
        decimal_text(n / 10).push(digit_char(n % 10))
    }
}

/// Words joined by single spaces, as a shell would show a command line.
pub open spec fn joined(words: Seq<Seq<char>>) -> Seq<char>
    decreases words.len(),
{
    if words.len() == 0 {
        Seq::empty()
    } else if words.len() == 1 {
        words[0]
    } else {
        joined(words.drop_last()) + seq![' '] + words.last()
    }
}

fn digit_text(d: u32) -> (s: &'static str)
    requires
        d < 10,
    ensures
        s@ == seq![digit_char(d as nat)],
{
    proof {
        reveal_strlit("0");
        reveal_strlit("1");
        reveal_strlit("2");
        reveal_strlit("3");
        reveal_strlit("4");
        reveal_strlit("5");
        reveal_strlit("6");
        reveal_strlit("7");
        reveal_strlit("8");
        reveal_strlit("9");
    }
    let s = if d == 0 {
        "0"
    } else if d == 1 {
        "1"
    } else if d == 2 {
        "2"
    } else if d == 3 {
        "3"
    } else if d == 4 {
        "4"
    } else if d == 5 {
        "5"
    } else if d == 6 {
        "6"
    } else if d == 7 {
        "7"
    } else if d == 8 {
        "8"
    } else {
        "9"
    };
    s
}

/// Writes a number in base ten.
pub fn decimal(n: u32) -> (text: String)
    ensures
        text@ == decimal_text(n as nat),
    decreases n,
{
    if n < 10 {
        String::from_str(digit_text(n))
    } else {
        let mut text = decimal(n / 10);
        text.append(digit_text(n % 10));
        text
    }
}

/// Writes a program and its arguments as one line, joined by single spaces.
pub fn join_words(first: &str, rest: &Vec<String>) -> (line: String)
    ensures
        line@ == joined(seq![first@] + rest.deep_view()),
{
    let ghost words = seq![first@] + rest.deep_view();
    let mut line = String::from_str(first);
    let mut i: usize = 0;
    while i < rest.len()
        invariant
            i <= rest.len(),
            words == seq![first@] + rest.deep_view(),
            line@ == joined(words.take(i + 1)),
        decreases rest.len() - i,
    {
        proof {
            reveal_strlit(" ");
            let before = words.take(i + 1);
            let after = words.take(i + 2);
            assert(after.drop_last() =~= before);
        }
        line.append(" ");
        line.append(rest[i].as_str());
        i += 1;
    }
    proof {
        assert(words.take(i + 1) =~= words);
    }
    line
}

} // verus!
