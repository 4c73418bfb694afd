//! Rendering a status code as text: the decimal digits of its number,
//! followed — for named variants only — by a single space and the reason
//! phrase. An `Unknown` code renders as its bare number, with no
//! trailing space.

use crate::StatusCode;
use vstd::prelude::*;
use vstd::string::StringExecFns;

verus! {

/// The character for a single decimal digit.
pub open spec fn spec_digit_char(d: nat) -> char
    recommends
        d < 10,
{
    if d == 0 {
        '0'
    } else if d == 1 {
        '1'
    } else if d == 2 {
        '2'
    } else if d == 3 {
        '3'
    } else if d == 4 {
        '4'
    } else if d == 5 {
        '5'
    } else if d == 6 {
        '6'
    } else if d == 7 {
        '7'
    } else if d == 8 {
        '8'
    } else {
        '9'
    }
}

/// The decimal digits of `n`, most significant first, with no sign and
/// no leading zeros (a single `'0'` for zero itself).
pub open spec fn spec_dec_digits(n: nat) -> Seq<char>
    decreases n,
{
    if n < 10 {
        seq![spec_digit_char(n)]
    } else {
        spec_dec_digits(n / 10).push(spec_digit_char(n % 10))
    }
}

impl StatusCode {
    /// The full rendering: `"{code} {phrase}"` for a named variant, just
    /// `"{code}"` for `Unknown`.
    pub open spec fn spec_display(self) -> Seq<char> {
        if self is Unknown {
            spec_dec_digits(self.spec_code() as nat)
        } else {
            spec_dec_digits(self.spec_code() as nat) + seq![' '] + self.spec_reason()
        }
    }

    /// Renders the status code for display: the decimal number, then a
    /// single space and the reason phrase for named variants; the bare
    /// number for `Unknown`, with the space omitted rather than left
    /// dangling before the empty phrase.
    pub fn render_display(&self) -> (text: String)
        ensures
            text@ == self.spec_display(),
    {
        let mut text = u16_to_decimal(self.as_u16());
        match *self {
            StatusCode::Unknown(_) => text,
            _ => {
                text.append(" ");
                text.append(self.reason_phrase());
                proof {
                    reveal_strlit(" ");
                    assert(" "@ =~= seq![' ']);
                }
                text
            },
        }
    }
}

/// The one-character string for a single decimal digit.
fn digit_str(d: u16) -> (s: &'static str)
    requires
        d < 10,
    ensures
        s@ =~= seq![spec_digit_char(d as nat)],
{
    proof {
        reveal_strlit("0");
        reveal_strlit("1");
        reveal_strlit("2");
        reveal_strlit("3");
        reveal_strlit("4");
        reveal_strlit("5");
        reveal_strlit("6");
        reveal_strlit("7");
        reveal_strlit("8");
        reveal_strlit("9");
    }
    match d {
        0 => "0",
        1 => "1",
        2 => "2",
        3 => "3",
        4 => "4",
        5 => "5",
        6 => "6",
        7 => "7",
        8 => "8",
        _ => "9",
    }
}

/// Writes `n` in decimal, most significant digit first.
fn u16_to_decimal(n: u16) -> (s: String)
    ensures
        s@ == spec_dec_digits(n as nat),
    decreases n,
{
    if n < 10 {
        String::from_str(digit_str(n))
    } else {
        let mut s = u16_to_decimal(n / 10);
        s.append(digit_str(n % 10));
        proof {
            assert(s@ =~= spec_dec_digits((n / 10) as nat).push(spec_digit_char((n % 10) as nat)));
        }
        s
    }
}

} // verus!
