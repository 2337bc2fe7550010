//! A phase written out for people: its name and, where it keeps one, its
//! amplitude in decimal and in brackets, as in `Attack(980)`.

use vstd::prelude::*;
use vstd::string::StringExecFns;
use crate::envelope::State;
use crate::voice::AtomicState;

verus! {

/// The text of one decimal digit.
pub open spec fn digit(d: nat) -> Seq<char> {
    if d == 0 {
        "0"@
    } else if d == 1 {
        "1"@
    } else if d == 2 {
        "2"@
    } else if d == 3 {
        "3"@
    } else if d == 4 {
        "4"@
    } else if d == 5 {
        "5"@
    } else if d == 6 {
        "6"@
    } else if d == 7 {
        "7"@
    } else if d == 8 {
        "8"@
    } else {
        "9"@
    }
}

/// The decimal digits of a number, without leading zeros.
pub open spec fn digits(n: nat) -> Seq<char>
    decreases n,
{
    if n < 10 {
        digit(n)
    } else {
        digits(n / 10) + digit(n % 10)
    }
}

/// A number in decimal, with a minus sign where it is negative.
pub open spec fn decimal(v: int) -> Seq<char> {
    if v < 0 {
        "-"@ + digits((-v) as nat)
    } else {
        digits(v as nat)
    }
}

fn push_digit(text: &mut String, d: u32)
    requires
        d < 10,
    ensures
        final(text)@ == old(text)@ + digit(d as nat),
{
    if d == 0 {
        text.append("0");
    } else if d == 1 {
        text.append("1");
    } else if d == 2 {
        text.append("2");
    } else if d == 3 {
        text.append("3");
    } else if d == 4 {
        text.append("4");
    } else if d == 5 {
        text.append("5");
    } else if d == 6 {
        text.append("6");
    } else if d == 7 {
        text.append("7");
    } else if d == 8 {
        text.append("8");
    } else {
        text.append("9");
    }
}

fn push_digits(text: &mut String, n: u32)
    ensures
        final(text)@ == old(text)@ + digits(n as nat),
    decreases n,
{
    if n >= 10 {
        push_digits(text, n / 10);
    }
    push_digit(text, n % 10);
    assert(text@ == old(text)@ + digits(n as nat));
}

fn push_decimal(text: &mut String, v: i32)
    ensures
        final(text)@ == old(text)@ + decimal(v as int),
{
    let wide = v as i64;
    if wide < 0 {
        text.append("-");
        push_digits(text, (-wide) as u32);
        assert(text@ == old(text)@ + decimal(v as int));
    } else {
        push_digits(text, wide as u32);
    }
}

impl State {
    /// The phase written out.
    pub open spec fn text(self) -> Seq<char> {
        match self {
            State::Attack(a) => "Attack("@ + decimal(a as int) + ")"@,
            State::Decay(a) => "Decay("@ + decimal(a as int) + ")"@,
            State::Sustain => "Sustain"@,
            State::Release(a) => "Release("@ + decimal(a as int) + ")"@,
            State::Silent => "Silent"@,
        }
    }

    /// Writes the phase out.
    pub fn to_text(&self) -> (text: String)
        ensures
            text@ == self.text(),
    {
        match self {
            State::Attack(a) => {
                let mut text = String::from_str("Attack(");
                push_decimal(&mut text, *a);
                text.append(")");
                text
            },
            State::Decay(a) => {
                let mut text = String::from_str("Decay(");
                push_decimal(&mut text, *a);
                text.append(")");
                text
            },
            State::Sustain => String::from_str("Sustain"),
            State::Release(a) => {
                let mut text = String::from_str("Release(");
                push_decimal(&mut text, *a);
                text.append(")");
                text
            },
            State::Silent => String::from_str("Silent"),
        }
    }
}

impl AtomicState {
    /// Writes out the phase the voice is in at some moment of the call.
    pub fn to_text(&self) -> (text: String)
        ensures
            exists|state: State| text@ == state.text(),
    {
        let state = self.state();
        let text = state.to_text();
        assert(text@ == state.text());
        text
    }
}

} // verus!
