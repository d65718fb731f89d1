//! Network addresses as plain values: a dotted-quad address is four octets,
//! and a socket address is an address with a port. The parser accepts
//! exactly the strict dotted-quad form: four runs of one to three decimal
//! digits, each below 256 and without a leading zero, joined by dots.

use vstd::prelude::*;
use vstd::string::StrSliceExecFns;

use crate::numbers::{spec_dec_val, spec_digit_run_end, spec_is_digit};

verus! {

/// A dotted-quad address, one field per octet.
#[derive(Debug, PartialEq, Eq, Structural, Clone, Copy)]
pub struct Ipv4Parts {
    pub a: u8,
    pub b: u8,
    pub c: u8,
    pub d: u8,
}

/// A dotted-quad address together with a port.
#[derive(Debug, PartialEq, Eq, Structural, Clone, Copy)]
pub struct SocketAddr4 {
    pub ip: Ipv4Parts,
    pub port: u16,
}

/// Whether the digit run starting at `i` forms one octet: one to three
/// digits, no leading zero unless the octet is exactly `0`, value at most
/// 255.
pub open spec fn spec_octet_ok(s: Seq<char>, i: int) -> bool {
    let j = spec_digit_run_end(s, i);
    &&& i < j <= i + 3
    &&& !(j - i > 1 && s[i] == '0')
    &&& spec_dec_val(s, i, j) <= 255
}

/// The dotted-quad address `s` denotes, if it is one.
pub open spec fn spec_parse_ipv4(s: Seq<char>) -> Option<Ipv4Parts> {
    if spec_octet_ok(s, 0) {
        let j1 = spec_digit_run_end(s, 0);
        if j1 < s.len() && s[j1] == '.' && spec_octet_ok(s, j1 + 1) {
            let j2 = spec_digit_run_end(s, j1 + 1);
            if j2 < s.len() && s[j2] == '.' && spec_octet_ok(s, j2 + 1) {
                let j3 = spec_digit_run_end(s, j2 + 1);
                if j3 < s.len() && s[j3] == '.' && spec_octet_ok(s, j3 + 1) {
                    let j4 = spec_digit_run_end(s, j3 + 1);
                    if j4 == s.len() {
                        Some(
                            Ipv4Parts {
                                a: spec_dec_val(s, 0, j1) as u8,
                                b: spec_dec_val(s, j1 + 1, j2) as u8,
                                c: spec_dec_val(s, j2 + 1, j3) as u8,
                                d: spec_dec_val(s, j3 + 1, j4) as u8,
                            },
                        )
                    } else {
                        None
                    }
                } else {
                    None
                }
            } else {
                None
            }
        } else {
            None
        }
    } else {
        None
    }
}

/// Scan one octet of `s` starting at `i`: its value and the position one
/// past its digits, or `None` when no octet starts there.
fn scan_octet(s: &str, n: usize, i: usize) -> (r: Option<(u8, usize)>)
    requires
        n == s@.len(),
        i <= n,
    ensures
        match r {
            Some(p) => {
                &&& spec_octet_ok(s@, i as int)
                &&& p.1 == spec_digit_run_end(s@, i as int)
                &&& p.0 == spec_dec_val(s@, i as int, p.1 as int)
                &&& i < p.1 <= n
            },
            None => !spec_octet_ok(s@, i as int),
        },
{
    let mut j: usize = i;
    while j < n
        invariant
            i <= j <= n,
            n == s@.len(),
            spec_digit_run_end(s@, i as int) == spec_digit_run_end(s@, j as int),
            forall|k: int| i <= k < j ==> spec_is_digit(s@[k]),
        ensures
            i <= j <= n,
            n == s@.len(),
            spec_digit_run_end(s@, i as int) == j as int,
            forall|k: int| i <= k < j ==> spec_is_digit(s@[k]),
        decreases n - j,
    {
        let code = s.get_char(j) as u32;
        if code < 48 || code > 57 {
            proof {
                assert(!spec_is_digit(s@[j as int]));
                assert(spec_digit_run_end(s@, j as int) == j as int);
            }
            break;
        }
        j = j + 1;
    }
    if j == i || j - i > 3 {
        return None;
    }
    let c0 = s.get_char(i);
    if j - i > 1 && c0 == '0' {
        return None;
    }
    let mut val: u32 = c0 as u32 - 48;
    proof {
        assert(spec_dec_val(s@, i as int, i as int) == 0);
        assert(spec_dec_val(s@, i as int, i as int + 1) == s@[i as int] as int - 48);
    }
    if j - i >= 2 {
        val = val * 10 + (s.get_char(i + 1) as u32 - 48);
        proof {
            assert(spec_dec_val(s@, i as int, i as int + 2) == spec_dec_val(
                s@,
                i as int,
                i as int + 1,
            ) * 10 + (s@[i as int + 1] as int - 48));
        }
    }
    if j - i == 3 {
        val = val * 10 + (s.get_char(i + 2) as u32 - 48);
        proof {
            assert(spec_dec_val(s@, i as int, i as int + 3) == spec_dec_val(
                s@,
                i as int,
                i as int + 2,
            ) * 10 + (s@[i as int + 2] as int - 48));
        }
    }
    if val > 255 {
        return None;
    }
    Some(((val as u8), j))
}

/// Parse a dotted-quad address: `Some` exactly when the whole of `s` is one.
pub fn parse_ipv4(s: &str) -> (r: Option<Ipv4Parts>)
    ensures
        r == spec_parse_ipv4(s@),
{
    let n = s.unicode_len();
    let (a, j1) = match scan_octet(s, n, 0) {
        Some(p) => p,
        None => {
            return None;
        },
    };
    if !(j1 < n && s.get_char(j1) == '.') {
        return None;
    }
    let (b, j2) = match scan_octet(s, n, j1 + 1) {
        Some(p) => p,
        None => {
            return None;
        },
    };
    if !(j2 < n && s.get_char(j2) == '.') {
        return None;
    }
    let (c, j3) = match scan_octet(s, n, j2 + 1) {
        Some(p) => p,
        None => {
            return None;
        },
    };
    if !(j3 < n && s.get_char(j3) == '.') {
        return None;
    }
    let (d, j4) = match scan_octet(s, n, j3 + 1) {
        Some(p) => p,
        None => {
            return None;
        },
    };
    if j4 != n {
        return None;
    }
    Some(Ipv4Parts { a, b, c, d })
}

} // verus!
