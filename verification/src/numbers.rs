//! Decimal text: the value a run of decimal digits denotes, and a verified
//! parser for port numbers.

use vstd::prelude::*;
use vstd::string::StrSliceExecFns;

verus! {

/// Whether `c` is a decimal digit.
pub open spec fn spec_is_digit(c: char) -> bool {
    48 <= c as int && c as int <= 57
}

/// The value that the digits `s[i .. j]` denote, most significant first.
pub open spec fn spec_dec_val(s: Seq<char>, i: int, j: int) -> int
    decreases j - i,
{
    if i >= j {
        0
    } else {
        spec_dec_val(s, i, j - 1) * 10 + (s[j - 1] as int - 48)
    }
}

/// The end of the run of decimal digits that starts at `i`.
pub open spec fn spec_digit_run_end(s: Seq<char>, i: int) -> int
    decreases s.len() - i,
{
    if 0 <= i < s.len() && spec_is_digit(s[i]) {
        spec_digit_run_end(s, i + 1)
    } else {
        i
    }
}

/// The port a configuration value denotes: a non-empty run of decimal
/// digits, nothing else, whose value fits in sixteen bits. Leading zeros
/// are allowed.
pub open spec fn spec_parse_u16(s: Seq<char>) -> Option<u16> {
    if s.len() >= 1 && (forall|k: int| 0 <= k < s.len() ==> spec_is_digit(s[k]))
        && spec_dec_val(s, 0, s.len() as int) <= 65535 {
        Some(spec_dec_val(s, 0, s.len() as int) as u16)
    } else {
        None
    }
}

/// Parse a port number: `Some` exactly when the whole of `s` is a non-empty
/// run of decimal digits denoting a value below two to the sixteenth.
pub fn parse_u16(s: &str) -> (r: Option<u16>)
    ensures
        r == spec_parse_u16(s@),
{
    let n = s.unicode_len();
    if n == 0 {
        return None;
    }
    let mut acc: u32 = 0;
    let mut i: usize = 0;
    while i < n
        invariant
            0 <= i <= n,
            n == s@.len(),
            forall|k: int| 0 <= k < i ==> spec_is_digit(s@[k]),
            spec_dec_val(s@, 0, i as int) <= 65535 ==> acc == spec_dec_val(s@, 0, i as int),
            spec_dec_val(s@, 0, i as int) > 65535 ==> acc == 65536,
            acc <= 65536,
        decreases n - i,
    {
        let c = s.get_char(i);
        let code = c as u32;
        if code < 48 || code > 57 {
            proof {
                assert(!spec_is_digit(s@[i as int]));
            }
            return None;
        }
        let d = code - 48;
        proof {
            assert(spec_dec_val(s@, 0, i as int + 1) == spec_dec_val(s@, 0, i as int) * 10 + (
            s@[i as int] as int - 48));
        }
        let next = acc * 10 + d;
        if next > 65535 {
            acc = 65536;
        } else {
            acc = next;
        }
        i = i + 1;
    }
    if acc <= 65535 {
        Some(acc as u16)
    } else {
        None
    }
}

} // verus!
