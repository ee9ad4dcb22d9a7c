//! Decimal number parsing for command parameters.
//!
//! Parameters arrive as strings. An entity id is an unsigned decimal
//! integer; a coordinate is a signed decimal numeral of the form
//! `-? digits (. digits)?`. A coordinate is kept exactly as parsed, as a
//! sign, an integer part, and a fractional part with its digit count, so
//! that what a command stored can be stated and compared exactly. This
//! grammar is the protocol's own: exponent forms (`1e3`), a bare point
//! (`.5`, `1.`), a leading `+`, and digit runs past the `u64` range are
//! rejected as invalid numbers.

use vstd::prelude::*;

verus! {

/// A signed decimal numeral, kept exactly: the value is
/// `(-1)^neg * (int_part + frac_part / 10^frac_len)`.
#[derive(Clone, Copy, PartialEq, Eq, Structural, Debug)]
pub struct Decimal {
    pub neg: bool,
    pub int_part: u64,
    pub frac_part: u64,
    pub frac_len: usize,
}

impl Decimal {
    /// The numeral `0`.
    pub open spec fn spec_zero() -> Decimal {
        Decimal { neg: false, int_part: 0, frac_part: 0, frac_len: 0 }
    }

    /// The numeral `0`.
    pub fn zero() -> (r: Decimal)
        ensures
            r == Decimal::spec_zero(),
    {
        Decimal { neg: false, int_part: 0, frac_part: 0, frac_len: 0 }
    }
}

pub open spec fn is_digit(c: char) -> bool {
    '0' <= c && c <= '9'
}

pub open spec fn digit_val(c: char) -> nat {
    (c as nat - '0' as nat) as nat
}

pub open spec fn all_digits(s: Seq<char>) -> bool {
    forall|i: int| 0 <= i < s.len() ==> is_digit(#[trigger] s[i])
}

/// The number denoted by a sequence of decimal digits, most significant first.
pub open spec fn digits_val(s: Seq<char>) -> nat
    decreases s.len(),
{
    if s.len() == 0 {
        0
    } else {
        digits_val(s.drop_last()) * 10 + digit_val(s.last())
    }
}

/// What `parse_u64` returns: the denoted number, provided the string is a
/// non-empty run of digits whose value fits in a `u64`.
pub open spec fn spec_parse_u64(s: Seq<char>) -> Option<u64> {
    if s.len() > 0 && all_digits(s) && digits_val(s) <= u64::MAX {
        Some(digits_val(s) as u64)
    } else {
        None
    }
}

/// A longer digit run denotes at least as much as any of its prefixes.
proof fn lemma_digits_val_prefix_le(s: Seq<char>, k: int)
    requires
        0 <= k <= s.len(),
    ensures
        digits_val(s.subrange(0, k)) <= digits_val(s),
    decreases s.len() - k,
{
    if k == s.len() {
        assert(s.subrange(0, k) =~= s);
    } else {
        let pre = s.subrange(0, k);
        let next = s.subrange(0, k + 1);
        assert(next.drop_last() =~= pre);
        assert(digits_val(next) == digits_val(pre) * 10 + digit_val(next.last()));
        assert(digits_val(pre) * 10 >= digits_val(pre));
        lemma_digits_val_prefix_le(s, k + 1);
    }
}

/// Parses a non-empty all-digit string as a `u64`, rejecting anything else
/// and any value that does not fit.
pub fn parse_u64(s: &str) -> (r: Option<u64>)
    ensures
        r == spec_parse_u64(s@),
{
    let n = s.unicode_len();
    if n == 0 {
        return None;
    }
    let mut acc: u64 = 0;
    let mut i: usize = 0;
    while i < n
        invariant
            0 <= i <= n,
            n == s@.len(),
            all_digits(s@.subrange(0, i as int)),
            acc == digits_val(s@.subrange(0, i as int)),
        decreases n - i,
    {
        let c = s.get_char(i);
        if c < '0' || c > '9' {
            assert(!is_digit(s@[i as int]));
            return None;
        }
        let d: u64 = (c as u32 - '0' as u32) as u64;
        assert(d == digit_val(s@[i as int]));
        if acc > (u64::MAX - d) / 10 {
            proof {
                let next = s@.subrange(0, i + 1);
                assert(next.drop_last() =~= s@.subrange(0, i as int));
                assert(digits_val(next) == acc * 10 + d);
                assert(acc * 10 + d > u64::MAX) by {
                    assert(acc >= (u64::MAX - d) / 10 + 1);
                    assert(acc * 10 >= ((u64::MAX - d) / 10 + 1) * 10) by (nonlinear_arith)
                        requires
                            acc >= (u64::MAX - d) / 10 + 1,
                    ;
                    assert(((u64::MAX - d) / 10) * 10 + 10 > u64::MAX - d);
                }
                lemma_digits_val_prefix_le(s@, i + 1);
            }
            return None;
        }
        proof {
            assert(acc * 10 + d <= u64::MAX) by {
                assert(acc <= (u64::MAX - d) / 10);
                assert(acc * 10 <= ((u64::MAX - d) / 10) * 10) by (nonlinear_arith)
                    requires
                        acc <= (u64::MAX - d) / 10,
                ;
                assert(((u64::MAX - d) / 10) * 10 <= u64::MAX - d);
            }
            let next = s@.subrange(0, i + 1);
            assert(next.drop_last() =~= s@.subrange(0, i as int));
        }
        acc = acc * 10 + d;
        i = i + 1;
    }
    proof {
        assert(s@.subrange(0, n as int) =~= s@);
    }
    Some(acc)
}

/// The index of the first `.` in `s`, or `s.len()` if there is none.
pub open spec fn point_pos(s: Seq<char>) -> int
    decreases s.len(),
{
    if s.len() == 0 {
        0
    } else if s[0] == '.' {
        0
    } else {
        1 + point_pos(s.drop_first())
    }
}

proof fn lemma_point_pos_bounds(s: Seq<char>)
    ensures
        0 <= point_pos(s) <= s.len(),
        point_pos(s) < s.len() ==> s[point_pos(s)] == '.',
        forall|i: int| 0 <= i < point_pos(s) ==> s[i] != '.',
    decreases s.len(),
{
    if s.len() != 0 && s[0] != '.' {
        lemma_point_pos_bounds(s.drop_first());
        assert(forall|i: int| 0 <= i < point_pos(s.drop_first()) ==> s.drop_first()[i] != '.');
        assert forall|i: int| 0 <= i < point_pos(s) implies s[i] != '.' by {
            if i > 0 {
                assert(s.drop_first()[i - 1] != '.');
                assert(s.drop_first()[i - 1] == s[i]);
            }
        }
        if point_pos(s) < s.len() {
            assert(s.drop_first()[point_pos(s.drop_first())] == s[point_pos(s)]);
        }
    }
}

/// If `p` is the index of the first `.` in `s` (or `s.len()` if absent),
/// then `point_pos` computes `p`.
proof fn lemma_point_pos_determined(s: Seq<char>, p: int)
    requires
        0 <= p <= s.len(),
        p < s.len() ==> s[p] == '.',
        forall|i: int| 0 <= i < p ==> s[i] != '.',
    ensures
        point_pos(s) == p,
    decreases s.len(),
{
    if s.len() == 0 {
    } else if p == 0 {
        if s.len() > 0 && s[0] != '.' {
            lemma_point_pos_bounds(s);
        }
    } else {
        assert(s[0] != '.');
        let t = s.drop_first();
        assert(forall|i: int| 0 <= i < p - 1 ==> #[trigger] t[i] == s[i + 1]);
        if p < s.len() {
            assert(t[p - 1] == s[p]);
        }
        lemma_point_pos_determined(t, p - 1);
    }
}

/// What parsing an unsigned numeral yields: either a plain digit run, or
/// two digit runs joined by a single `.`, each part fitting in a `u64`.
pub open spec fn spec_parse_unsigned(s: Seq<char>) -> Option<Decimal> {
    let p = point_pos(s);
    if p == s.len() {
        match spec_parse_u64(s) {
            Some(v) => Some(Decimal { neg: false, int_part: v, frac_part: 0, frac_len: 0 }),
            None => None,
        }
    } else {
        let ip = s.subrange(0, p);
        let fp = s.subrange(p + 1, s.len() as int);
        match (spec_parse_u64(ip), spec_parse_u64(fp)) {
            (Some(iv), Some(fv)) => Some(
                Decimal { neg: false, int_part: iv, frac_part: fv, frac_len: fp.len() as usize },
            ),
            _ => None,
        }
    }
}

/// What parsing a coordinate parameter yields: an optional leading `-`,
/// then an unsigned numeral.
pub open spec fn spec_parse_decimal(s: Seq<char>) -> Option<Decimal> {
    if s.len() > 0 && s[0] == '-' {
        match spec_parse_unsigned(s.subrange(1, s.len() as int)) {
            Some(d) => Some(Decimal { neg: true, ..d }),
            None => None,
        }
    } else {
        spec_parse_unsigned(s)
    }
}

/// Parses an unsigned decimal numeral, `digits` or `digits.digits`.
fn parse_unsigned(s: &str) -> (r: Option<Decimal>)
    ensures
        r == spec_parse_unsigned(s@),
{
    let n = s.unicode_len();
    let mut p: usize = 0;
    while p < n && s.get_char(p) != '.'
        invariant
            0 <= p <= n,
            n == s@.len(),
            forall|i: int| 0 <= i < p ==> s@[i] != '.',
        decreases n - p,
    {
        p = p + 1;
    }
    proof {
        lemma_point_pos_determined(s@, p as int);
    }
    if p == n {
        match parse_u64(s) {
            Some(v) => Some(Decimal { neg: false, int_part: v, frac_part: 0, frac_len: 0 }),
            None => None,
        }
    } else {
        let ip = s.substring_char(0, p);
        let fp = s.substring_char(p + 1, n);
        match (parse_u64(ip), parse_u64(fp)) {
            (Some(iv), Some(fv)) => Some(
                Decimal { neg: false, int_part: iv, frac_part: fv, frac_len: n - p - 1 },
            ),
            _ => None,
        }
    }
}

/// Parses a signed decimal coordinate parameter exactly as
/// `spec_parse_decimal` describes, rejecting anything else.
pub fn parse_decimal(s: &str) -> (r: Option<Decimal>)
    ensures
        r == spec_parse_decimal(s@),
{
    let n = s.unicode_len();
    if n > 0 && s.get_char(0) == '-' {
        let rest = s.substring_char(1, n);
        match parse_unsigned(rest) {
            Some(d) => Some(Decimal { neg: true, ..d }),
            None => None,
        }
    } else {
        parse_unsigned(s)
    }
}

} // verus!
