//! Rendering the log record of a post: its creation time and identifier in
//! decimal, then its text, in the shape `{time}/{id}: {text}`.

use vstd::prelude::*;

use crate::status::Status;

verus! {

/// The character of one decimal digit.
pub open spec fn spec_digit_char(d: int) -> char {
    if d == 0 {
        '0'
    } else if d == 1 {
        '1'
    } else if d == 2 {
        '2'
    } else if d == 3 {
        '3'
    } else if d == 4 {
        '4'
    } else if d == 5 {
        '5'
    } else if d == 6 {
        '6'
    } else if d == 7 {
        '7'
    } else if d == 8 {
        '8'
    } else {
        '9'
    }
}

/// The decimal digits of a number, most significant first, no leading
/// zeroes (a single `0` for zero).
pub open spec fn spec_u64_digits(n: nat) -> Seq<char>
    decreases n,
{
    if n < 10 {
        seq![spec_digit_char(n as int)]
    } else {
        spec_u64_digits(n / 10) + seq![spec_digit_char((n % 10) as int)]
    }
}

/// The decimal rendering of a signed number: a leading minus when it is
/// negative, then its magnitude's digits.
pub open spec fn spec_i64_digits(n: int) -> Seq<char> {
    if n < 0 {
        seq!['-'] + spec_u64_digits((-n) as nat)
    } else {
        spec_u64_digits(n as nat)
    }
}

/// The character of one decimal digit, as a one-character piece of text.
fn digit_str(d: u64) -> (s: &'static str)
    requires
        d < 10,
    ensures
        s@ == seq![spec_digit_char(d as int)],
{
    proof {
        reveal_strlit("0");
        reveal_strlit("1");
        reveal_strlit("2");
        reveal_strlit("3");
        reveal_strlit("4");
        reveal_strlit("5");
        reveal_strlit("6");
        reveal_strlit("7");
        reveal_strlit("8");
        reveal_strlit("9");
        assert("0"@ =~= seq!['0']);
        assert("1"@ =~= seq!['1']);
        assert("2"@ =~= seq!['2']);
        assert("3"@ =~= seq!['3']);
        assert("4"@ =~= seq!['4']);
        assert("5"@ =~= seq!['5']);
        assert("6"@ =~= seq!['6']);
        assert("7"@ =~= seq!['7']);
        assert("8"@ =~= seq!['8']);
        assert("9"@ =~= seq!['9']);
    }
    if d == 0 {
        "0"
    } else if d == 1 {
        "1"
    } else if d == 2 {
        "2"
    } else if d == 3 {
        "3"
    } else if d == 4 {
        "4"
    } else if d == 5 {
        "5"
    } else if d == 6 {
        "6"
    } else if d == 7 {
        "7"
    } else if d == 8 {
        "8"
    } else {
        "9"
    }
}

/// Renders a number in decimal.
pub fn u64_to_string(n: u64) -> (s: String)
    ensures
        s@ == spec_u64_digits(n as nat),
    decreases n,
{
    if n < 10 {
        String::from_str(digit_str(n))
    } else {
        let mut s = u64_to_string(n / 10);
        s.append(digit_str(n % 10));
        s
    }
}

/// Renders a signed number in decimal, with a leading minus when it is
/// negative.
pub fn i64_to_string(n: i64) -> (s: String)
    ensures
        s@ == spec_i64_digits(n as int),
{
    if n < 0 {
        let mut s = String::from_str("-");
        proof {
            reveal_strlit("-");
            assert("-"@ =~= seq!['-']);
        }
        let magnitude = (-(n as i128)) as u64;
        let digits = u64_to_string(magnitude);
        s.append(digits.as_str());
        s
    } else {
        u64_to_string(n as u64)
    }
}

impl Status {
    /// The log record of this post: its creation time (seconds since the
    /// Unix epoch), its identifier and its text, as `{time}/{id}: {text}`.
    pub fn log_line(&self) -> (s: String)
        ensures
            s@ == spec_i64_digits(self.created_at as int) + "/"@ + spec_u64_digits(self.id as nat)
                + ": "@ + self.text@,
    {
        let mut s = i64_to_string(self.created_at);
        s.append("/");
        let id_digits = u64_to_string(self.id);
        s.append(id_digits.as_str());
        s.append(": ");
        s.append(self.text.as_str());
        s
    }
}

} // verus!
