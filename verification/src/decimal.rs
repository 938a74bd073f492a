//! Parsing of device identifiers: unsigned 64-bit integers written in
//! decimal, as they appear in the textual description of a registry
//! property value.
//!
//! The accepted form mirrors the standard library's `u64` parser: an
//! optional leading `'+'`, then one or more ASCII decimal digits, and a
//! value that fits in 64 bits.

use vstd::prelude::*;

verus! {

/// True when `c` is an ASCII decimal digit.
pub open spec fn is_dec_digit(c: char) -> bool {
    '0' <= c && c <= '9'
}

/// Numeric value of one decimal digit.
pub open spec fn digit_val(c: char) -> int {
    c as int - '0' as int
}

/// True when every character of `s` is a decimal digit.
pub open spec fn all_digits(s: Seq<char>) -> bool {
    forall|i: int| 0 <= i < s.len() ==> is_dec_digit(s[i])
}

/// Value of a digit sequence read in base ten, most significant digit first.
pub open spec fn dec_val(s: Seq<char>) -> int
    decreases s.len(),
{
    if s.len() == 0 {
        0
    } else {
        dec_val(s.drop_last()) * 10 + digit_val(s.last())
    }
}

/// The digit part of a decimal numeral: everything after an optional
/// leading `'+'` sign.
pub open spec fn digit_part(s: Seq<char>) -> Seq<char> {
    if s.len() > 0 && s[0] == '+' {
        s.drop_first()
    } else {
        s
    }
}

/// True when `s` is a decimal numeral for a value that fits in a `u64`:
/// an optional leading `'+'`, then at least one digit, nothing else, and a
/// value of at most `u64::MAX`.
pub open spec fn is_u64_numeral(s: Seq<char>) -> bool {
    &&& digit_part(s).len() > 0
    &&& all_digits(digit_part(s))
    &&& dec_val(digit_part(s)) <= u64::MAX
}

/// The value of a digit sequence is never negative.
pub proof fn lemma_dec_val_nonneg(s: Seq<char>)
    requires
        all_digits(s),
    ensures
        dec_val(s) >= 0,
    decreases s.len(),
{
    if s.len() > 0 {
        assert(all_digits(s.drop_last()));
        lemma_dec_val_nonneg(s.drop_last());
    }
}

/// Appending digits never decreases the value: the value of a digit
/// sequence is at least the value of any of its prefixes.
pub proof fn lemma_dec_val_prefix(s: Seq<char>, n: int)
    requires
        all_digits(s),
        0 <= n <= s.len(),
    ensures
        dec_val(s.subrange(0, n)) <= dec_val(s),
    decreases s.len() - n,
{
    if n == s.len() {
        assert(s.subrange(0, n) =~= s);
    } else {
        lemma_dec_val_prefix(s, n + 1);
        let p = s.subrange(0, n);
        let q = s.subrange(0, n + 1);
        assert(q.drop_last() =~= p);
        assert(all_digits(p));
        lemma_dec_val_nonneg(p);
        assert(dec_val(q) == dec_val(p) * 10 + digit_val(q.last()));
        assert(dec_val(p) * 10 >= dec_val(p)) by {
            assert(dec_val(p) >= 0);
            assert(dec_val(p) * 10 == dec_val(p) + dec_val(p) * 9) by (nonlinear_arith);
            assert(dec_val(p) * 9 >= 0) by (nonlinear_arith)
                requires dec_val(p) >= 0;
        }
        assert(dec_val(p) <= dec_val(q));
    }
}

/// Parse `s` as an unsigned 64-bit decimal numeral.
///
/// Returns the value exactly when `s` is an optional `'+'` followed by one
/// or more decimal digits denoting a value of at most `u64::MAX`; returns
/// `None` on every other input.
pub fn parse_u64(s: &str) -> (r: Option<u64>)
    ensures
        r is Some <==> is_u64_numeral(s@),
        r is Some ==> r->0 == dec_val(digit_part(s@)),
{
    let n = s.unicode_len();
    if n == 0 {
        return None;
    }
    let start: usize = if s.get_char(0) == '+' {
        1
    } else {
        0
    };
    if start == n {
        proof {
            assert(digit_part(s@).len() == 0);
        }
        return None;
    }
    let ghost d = digit_part(s@);
    proof {
        assert(d =~= s@.subrange(start as int, n as int));
    }
    let mut acc: u64 = 0;
    let mut i: usize = start;
    while i < n
        invariant
            start <= i <= n,
            n == s@.len(),
            start <= 1,
            d == s@.subrange(start as int, n as int),
            d =~= digit_part(s@),
            d.len() == n - start,
            all_digits(d.subrange(0, i - start)),
            acc == dec_val(d.subrange(0, i - start)),
        decreases n - i,
    {
        let c = s.get_char(i);
        let u = c as u32;
        if u < 48 || u > 57 {
            proof {
                assert(d[i - start] == s@[i as int]);
                assert(!is_dec_digit(d[i - start]));
            }
            return None;
        }
        let dv = (u - 48) as u64;
        let ghost pre = d.subrange(0, i - start);
        let ghost cur = d.subrange(0, i + 1 - start);
        proof {
            assert(cur.drop_last() =~= pre);
            assert(cur.last() == s@[i as int]);
            assert(is_dec_digit(cur.last()));
            assert(all_digits(cur));
            assert(dec_val(cur) == dec_val(pre) * 10 + digit_val(cur.last()));
            assert(digit_val(cur.last()) == dv);
        }
        let m = match acc.checked_mul(10) {
            Some(m) => m,
            None => {
                proof {
                    assert(dec_val(cur) > u64::MAX) by {
                        assert(acc * 10 > u64::MAX);
                        assert(digit_val(cur.last()) >= 0);
                    }
                    lemma_overflow(d, i + 1 - start);
                }
                return None;
            },
        };
        let a = match m.checked_add(dv) {
            Some(a) => a,
            None => {
                proof {
                    assert(dec_val(cur) > u64::MAX);
                    lemma_overflow(d, i + 1 - start);
                }
                return None;
            },
        };
        acc = a;
        i = i + 1;
    }
    proof {
        assert(d.subrange(0, i - start) =~= d);
    }
    Some(acc)
}

/// If some prefix of a digit sequence already exceeds `u64::MAX`, the whole
/// sequence is no `u64` numeral.
proof fn lemma_overflow(d: Seq<char>, n: int)
    requires
        0 <= n <= d.len(),
        all_digits(d.subrange(0, n)),
        dec_val(d.subrange(0, n)) > u64::MAX,
    ensures
        !(all_digits(d) && dec_val(d) <= u64::MAX),
{
    if all_digits(d) {
        lemma_dec_val_prefix(d, n);
    }
}

} // verus!
