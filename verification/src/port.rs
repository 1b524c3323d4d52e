//! Decimal parsing and validation of the TCP port setting.

use vstd::prelude::*;
use vstd::string::StrSliceExecFns;

verus! {

/// Ports this client accepts: the full positive 16-bit range.
pub open spec fn port_in_range(v: int) -> bool {
    1 <= v <= 65535
}

pub open spec fn is_dec_digit(c: char) -> bool {
    48 <= c as int <= 57
}

pub open spec fn digit_value(c: char) -> int {
    c as int - 48
}

pub open spec fn all_dec_digits(s: Seq<char>) -> bool {
    forall|i: int| 0 <= i < s.len() ==> is_dec_digit(#[trigger] s[i])
}

/// The number a digit string denotes, most significant digit first.
pub open spec fn dec_value(s: Seq<char>) -> int
    decreases s.len(),
{
    if s.len() == 0 {
        0
    } else {
        dec_value(s.drop_last()) * 10 + digit_value(s.last())
    }
}

/// A string names a usable port exactly when it is nonempty, consists of
/// decimal digits, and denotes a number in the positive 16-bit range.
pub open spec fn valid_port_str(s: Seq<char>) -> bool {
    s.len() > 0 && all_dec_digits(s) && port_in_range(dec_value(s))
}

proof fn lemma_dec_value_nonneg(s: Seq<char>)
    requires
        all_dec_digits(s),
    ensures
        dec_value(s) >= 0,
    decreases s.len(),
{
    if s.len() > 0 {
        assert(all_dec_digits(s.drop_last())) by {
            assert forall|i: int| 0 <= i < s.drop_last().len() implies is_dec_digit(
                #[trigger] s.drop_last()[i],
            ) by {
                assert(s.drop_last()[i] == s[i]);
            }
        }
        lemma_dec_value_nonneg(s.drop_last());
    }
}

/// A digit string denotes at least as much as any of its prefixes.
proof fn lemma_dec_value_prefix_le(s: Seq<char>, i: int)
    requires
        all_dec_digits(s),
        0 <= i <= s.len(),
    ensures
        dec_value(s.subrange(0, i)) <= dec_value(s),
    decreases s.len() - i,
{
    if i == s.len() {
        assert(s.subrange(0, i) =~= s);
    } else {
        let p = s.subrange(0, i);
        let q = s.subrange(0, i + 1);
        assert(q.drop_last() =~= p);
        assert(q.last() == s[i]);
        assert(all_dec_digits(p)) by {
            assert forall|j: int| 0 <= j < p.len() implies is_dec_digit(#[trigger] p[j]) by {
                assert(p[j] == s[j]);
            }
        }
        lemma_dec_value_nonneg(p);
        assert(dec_value(q) == dec_value(p) * 10 + digit_value(s[i]));
        assert(dec_value(p) <= dec_value(p) * 10) by {
            assert(dec_value(p) * 10 - dec_value(p) == 9 * dec_value(p)) by (nonlinear_arith);
            assert(9 * dec_value(p) >= 0) by (nonlinear_arith)
                requires
                    dec_value(p) >= 0,
            ;
        }
        lemma_dec_value_prefix_le(s, i + 1);
    }
}

/// Parse a port string: `Some(v)` exactly when the string is a nonempty
/// decimal numeral whose value `v` lies in `[1, 65535]`.
pub fn parse_port(s: &str) -> (r: Option<u16>)
    ensures
        r is Some <==> valid_port_str(s@),
        r matches Some(v) ==> v as int == dec_value(s@),
{
    let n = s.unicode_len();
    if n == 0 {
        return None;
    }
    let mut val: u32 = 0;
    let mut i: usize = 0;
    while i < n
        invariant
            0 <= i <= n,
            n == s@.len(),
            all_dec_digits(s@.subrange(0, i as int)),
            val as int == dec_value(s@.subrange(0, i as int)),
            val <= 65535,
        decreases n - i,
    {
        let c = s.get_char(i);
        let d = c as u32;
        if d < 48 || d > 57 {
            proof {
                assert(!is_dec_digit(s@[i as int]));
            }
            return None;
        }
        proof {
            assert(s@.subrange(0, i as int + 1).drop_last() =~= s@.subrange(0, i as int));
            assert(s@.subrange(0, i as int + 1).last() == s@[i as int]);
        }
        val = val * 10 + (d - 48);
        if val > 65535 {
            proof {
                if all_dec_digits(s@) {
                    lemma_dec_value_prefix_le(s@, i as int + 1);
                }
            }
            return None;
        }
        i = i + 1;
    }
    proof {
        assert(s@.subrange(0, n as int) =~= s@);
    }
    if val == 0 {
        return None;
    }
    Some(val as u16)
}

} // verus!
