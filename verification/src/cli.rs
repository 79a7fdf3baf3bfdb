//! Validation of the command-line retention window: parsing ASCII text as a
//! decimal 64-bit integer, and rejecting a negative number of days.
//!
//! The parser accepts an optional leading `+` or `-` followed by at least
//! one decimal digit, and reports the first failure it finds scanning left
//! to right, the way the standard library's integer parser does: an empty
//! text, a byte that is no digit, or a value that no longer fits.

use vstd::prelude::*;
use vstd::string::StringSliceAdditionalSpecFns;

verus! {

/// Why a piece of text is not a 64-bit decimal integer.
#[derive(Debug, Clone, Copy, PartialEq, Eq, Structural)]
pub enum ParseIntError {
    Empty,
    InvalidDigit,
    TooLarge,
    TooSmall,
}

/// Whether a byte is an ASCII decimal digit.
pub open spec fn spec_is_digit(b: u8) -> bool {
    48 <= b <= 57
}

/// Whether every byte is an ASCII decimal digit.
pub open spec fn spec_all_digits(s: Seq<u8>) -> bool {
    forall|i: int| 0 <= i < s.len() ==> spec_is_digit(#[trigger] s[i])
}

/// The number a sequence of decimal digits denotes, most significant first.
pub open spec fn spec_digits_value(s: Seq<u8>) -> int
    decreases s.len(),
{
    if s.len() == 0 {
        0
    } else {
        spec_digits_value(s.drop_last()) * 10 + (s.last() - 48)
    }
}

/// The digits of the text: everything after the sign, if one leads.
pub open spec fn spec_magnitude(s: Seq<u8>) -> Seq<u8> {
    if s.len() > 0 && (s[0] == 43 || s[0] == 45) {
        s.drop_first()
    } else {
        s
    }
}

/// Whether the text denotes a negative number.
pub open spec fn spec_is_negative(s: Seq<u8>) -> bool {
    s.len() > 0 && s[0] == 45
}

/// The signed number the text denotes, when it is well formed.
pub open spec fn spec_int_value(s: Seq<u8>) -> int {
    if spec_is_negative(s) {
        -spec_digits_value(spec_magnitude(s))
    } else {
        spec_digits_value(spec_magnitude(s))
    }
}

/// Whether the text is a well-formed decimal integer whose value fits in an
/// `i64`: an optional sign, at least one digit, and a value in range.
pub open spec fn spec_valid_i64(s: Seq<u8>) -> bool {
    &&& spec_magnitude(s).len() > 0
    &&& spec_all_digits(spec_magnitude(s))
    &&& i64::MIN <= spec_int_value(s) <= i64::MAX
}

/// Scans digit text left to right, accumulating a value that may not exceed
/// `bound`: the accumulated value, or the first failure found — a byte that
/// is no digit, or, at the position where `bound` is first exceeded, the
/// overflow error `oerr` of the sign being parsed.
pub open spec fn spec_scan(mag: Seq<u8>, bound: int, oerr: ParseIntError) -> Result<
    int,
    ParseIntError,
>
    decreases mag.len(),
{
    if mag.len() == 0 {
        Ok(0)
    } else {
        match spec_scan(mag.drop_last(), bound, oerr) {
            Ok(v) => {
                if !spec_is_digit(mag.last()) {
                    Err(ParseIntError::InvalidDigit)
                } else if v * 10 + (mag.last() - 48) > bound {
                    Err(oerr)
                } else {
                    Ok(v * 10 + (mag.last() - 48))
                }
            },
            Err(e) => Err(e),
        }
    }
}

/// What parsing the text as an `i64` returns: the denoted value, or the
/// first failure found scanning left to right.
pub open spec fn spec_parse_i64(s: Seq<u8>) -> Result<i64, ParseIntError> {
    if s.len() == 0 {
        Err(ParseIntError::Empty)
    } else {
        let neg = spec_is_negative(s);
        let mag = spec_magnitude(s);
        let bound: int = if neg {
            0x8000_0000_0000_0000
        } else {
            0x7fff_ffff_ffff_ffff
        };
        let oerr = if neg {
            ParseIntError::TooSmall
        } else {
            ParseIntError::TooLarge
        };
        if mag.len() == 0 {
            Err(ParseIntError::InvalidDigit)
        } else {
            match spec_scan(mag, bound, oerr) {
                Ok(v) => Ok(
                    (if neg {
                        -v
                    } else {
                        v
                    }) as i64,
                ),
                Err(e) => Err(e),
            }
        }
    }
}

/// The first failure sticks: once a prefix of the digit text fails to scan,
/// the whole text fails the same way.
proof fn lemma_scan_error_persists(mag: Seq<u8>, bound: int, oerr: ParseIntError, k: int)
    requires
        0 <= k <= mag.len(),
        spec_scan(mag.take(k), bound, oerr) is Err,
    ensures
        spec_scan(mag, bound, oerr) == spec_scan(mag.take(k), bound, oerr),
    decreases mag.len(),
{
    if k == mag.len() {
        assert(mag.take(k) =~= mag);
    } else {
        assert(mag.drop_last().take(k) =~= mag.take(k));
        lemma_scan_error_persists(mag.drop_last(), bound, oerr, k);
    }
}

/// Digit text denotes a non-negative number.
proof fn lemma_digits_value_nonneg(s: Seq<u8>)
    requires
        spec_all_digits(s),
    ensures
        spec_digits_value(s) >= 0,
    decreases s.len(),
{
    if s.len() > 0 {
        assert forall|i: int| 0 <= i < s.drop_last().len() implies spec_is_digit(
            #[trigger] s.drop_last()[i],
        ) by {
            assert(s.drop_last()[i] == s[i]);
        }
        lemma_digits_value_nonneg(s.drop_last());
    }
}

/// The scan succeeds exactly when the text is all digits and denotes a
/// number within the bound, and then accumulates exactly that number.
proof fn lemma_scan_characterized(mag: Seq<u8>, bound: int, oerr: ParseIntError)
    requires
        bound >= 0,
    ensures
        (spec_scan(mag, bound, oerr) is Ok) == (spec_all_digits(mag) && spec_digits_value(mag)
            <= bound),
        spec_scan(mag, bound, oerr) matches Ok(v) ==> v == spec_digits_value(mag),
    decreases mag.len(),
{
    if mag.len() == 0 {
    } else {
        let dl = mag.drop_last();
        lemma_scan_characterized(dl, bound, oerr);
        assert forall|i: int| 0 <= i < dl.len() implies dl[i] == mag[i] by {}
        if spec_all_digits(mag) {
            assert(spec_all_digits(dl));
            lemma_digits_value_nonneg(dl);
            assert(spec_is_digit(mag.last()));
            assert(spec_digits_value(mag) == spec_digits_value(dl) * 10 + (mag.last() - 48));
            assert(spec_digits_value(dl) * 10 >= spec_digits_value(dl)) by (nonlinear_arith)
                requires
                    spec_digits_value(dl) >= 0,
            ;
            assert(spec_digits_value(mag) >= spec_digits_value(dl));
        } else {
            if spec_all_digits(dl) && !spec_is_digit(mag.last()) {
            } else {
                assert(!spec_all_digits(dl) ==> !(spec_scan(mag, bound, oerr) is Ok));
            }
        }
    }
}

/// Parsing succeeds exactly on the well-formed decimal integers whose value
/// fits in an `i64`, and returns the value the text denotes.
pub proof fn lemma_parse_is_grammar(s: Seq<u8>)
    ensures
        (spec_parse_i64(s) is Ok) == spec_valid_i64(s),
        spec_parse_i64(s) matches Ok(v) ==> v == spec_int_value(s),
{
    if s.len() == 0 {
    } else {
        let neg = spec_is_negative(s);
        let mag = spec_magnitude(s);
        let bound: int = if neg {
            0x8000_0000_0000_0000
        } else {
            0x7fff_ffff_ffff_ffff
        };
        let oerr = if neg {
            ParseIntError::TooSmall
        } else {
            ParseIntError::TooLarge
        };
        if mag.len() > 0 {
            lemma_scan_characterized(mag, bound, oerr);
            if spec_all_digits(mag) {
                lemma_digits_value_nonneg(mag);
            }
        }
    }
}

/// Parses ASCII text as a decimal 64-bit integer: an optional `+` or `-`
/// sign, then at least one digit.  Returns the denoted value, or the first
/// failure found scanning left to right.
pub fn parse_i64(s: &str) -> (r: Result<i64, ParseIntError>)
    ensures
        r == spec_parse_i64(s.spec_bytes()),
        (r is Ok) == spec_valid_i64(s.spec_bytes()),
        r matches Ok(v) ==> v == spec_int_value(s.spec_bytes()),
{
    proof {
        lemma_parse_is_grammar(s.spec_bytes());
    }
    let bytes = s.as_bytes();
    let n = bytes.len();
    if n == 0 {
        return Err(ParseIntError::Empty);
    }
    let neg = bytes[0] == 45;
    let start: usize = if bytes[0] == 45 || bytes[0] == 43 {
        1
    } else {
        0
    };
    let ghost mag = spec_magnitude(bytes@);
    proof {
        assert(mag =~= bytes@.subrange(start as int, n as int));
    }
    if start >= n {
        return Err(ParseIntError::InvalidDigit);
    }
    let bound: u64 = if neg {
        0x8000_0000_0000_0000
    } else {
        0x7fff_ffff_ffff_ffff
    };
    let oerr = if neg {
        ParseIntError::TooSmall
    } else {
        ParseIntError::TooLarge
    };
    let mut val: u128 = 0;
    let mut i: usize = start;
    while i < n
        invariant
            start <= i <= n,
            n == bytes@.len(),
            bytes@ == s.spec_bytes(),
            start == 0 || start == 1,
            start == 1 <==> n > 0 && (bytes@[0] == 43 || bytes@[0] == 45),
            neg == spec_is_negative(bytes@),
            mag == spec_magnitude(bytes@),
            mag =~= bytes@.subrange(start as int, n as int),
            bound == (if neg {
                0x8000_0000_0000_0000u64
            } else {
                0x7fff_ffff_ffff_ffffu64
            }),
            oerr == (if neg {
                ParseIntError::TooSmall
            } else {
                ParseIntError::TooLarge
            }),
            val <= bound,
            spec_scan(mag.take(i - start), bound as int, oerr) == Ok::<int, ParseIntError>(
                val as int,
            ),
        decreases n - i,
    {
        let ghost k = i - start;
        let b = bytes[i];
        proof {
            assert(mag[k] == bytes@[i as int]);
            assert(mag.take(k + 1).drop_last() =~= mag.take(k));
            assert(mag.take(k + 1).last() == mag[k]);
        }
        if b < 48 || b > 57 {
            proof {
                assert(spec_scan(mag.take(k + 1), bound as int, oerr) == Err::<
                    int,
                    ParseIntError,
                >(ParseIntError::InvalidDigit));
                lemma_scan_error_persists(mag, bound as int, oerr, k + 1);
                lemma_parse_is_grammar(bytes@);
            }
            return Err(ParseIntError::InvalidDigit);
        }
        let d = (b - 48) as u128;
        if val * 10 + d > bound as u128 {
            proof {
                assert(spec_scan(mag.take(k + 1), bound as int, oerr) == Err::<
                    int,
                    ParseIntError,
                >(oerr));
                lemma_scan_error_persists(mag, bound as int, oerr, k + 1);
                lemma_parse_is_grammar(bytes@);
            }
            return Err(oerr);
        }
        val = val * 10 + d;
        i += 1;
    }
    proof {
        assert(mag.take(n - start) =~= mag);
        lemma_parse_is_grammar(bytes@);
    }
    if neg {
        let signed: i128 = -(val as i128);
        Ok(signed as i64)
    } else {
        Ok(val as i64)
    }
}

/// The message given for each way a retention-window argument can be
/// rejected: the text does not parse as an integer, or it parses as a
/// negative number of days.
pub open spec fn spec_age_error_text(p: Result<i64, ParseIntError>) -> Seq<char> {
    match p {
        Ok(_) => "value cannot be a negative number of days"@,
        Err(ParseIntError::Empty) => "cannot parse integer from empty string"@,
        Err(ParseIntError::InvalidDigit) => "invalid digit found in string"@,
        Err(ParseIntError::TooLarge) => "number too large to fit in target type"@,
        Err(ParseIntError::TooSmall) => "number too small to fit in target type"@,
    }
}

/// Accepts a retention-window argument exactly when it is a decimal integer
/// and names a non-negative number of days; rejects anything else with a
/// message naming the first failure.
pub fn is_valid_max_tweet_age(v: &str) -> (r: Result<(), String>)
    ensures
        (r is Ok) == (spec_valid_i64(v.spec_bytes()) && spec_int_value(v.spec_bytes()) >= 0),
        r matches Err(msg) ==> msg@ == spec_age_error_text(spec_parse_i64(v.spec_bytes())),
{
    match parse_i64(v) {
        Ok(i) => {
            if i < 0 {
                Err(String::from_str("value cannot be a negative number of days"))
            } else {
                Ok(())
            }
        },
        Err(ParseIntError::Empty) => Err(
            String::from_str("cannot parse integer from empty string"),
        ),
        Err(ParseIntError::InvalidDigit) => Err(String::from_str("invalid digit found in string")),
        Err(ParseIntError::TooLarge) => Err(
            String::from_str("number too large to fit in target type"),
        ),
        Err(ParseIntError::TooSmall) => Err(
            String::from_str("number too small to fit in target type"),
        ),
    }
}

} // verus!
