//! Decimal application ids, read as `u64::from_str` reads them.

use vstd::prelude::*;

verus! {

/// Whether `c` is an ASCII decimal digit.
pub open spec fn is_digit(c: char) -> bool {
    '0' <= c && c <= '9'
}

/// The value of the decimal digits `s`, most significant first.
pub open spec fn digits_value(s: Seq<char>) -> nat
    decreases s.len(),
{
    if s.len() == 0 {
        0
    } else {
        digits_value(s.drop_last()) * 10 + ((s.last() as nat) - ('0' as nat)) as nat
    }
}

/// The digits of `s` once an optional leading `+` is taken off.
pub open spec fn unsigned_body(s: Seq<char>) -> Seq<char> {
    if s.len() > 0 && s[0] == '+' {
        s.skip(1)
    } else {
        s
    }
}

/// What reading `s` as a `u64` gives: an optional `+`, then one or more digits
/// whose value fits in 64 bits.
pub open spec fn parse_u64_spec(s: Seq<char>) -> Option<u64> {
    let b = unsigned_body(s);
    if b.len() > 0 && (forall|i: int| 0 <= i < b.len() ==> is_digit(#[trigger] b[i]))
        && digits_value(b) <= u64::MAX {
        Some(digits_value(b) as u64)
    } else {
        None
    }
}

/// A longer run of digits is worth at least as much as its prefix.
proof fn lemma_digits_value_prefix(s: Seq<char>, k: int)
    requires
        0 <= k <= s.len(),
        forall|i: int| 0 <= i < s.len() ==> is_digit(#[trigger] s[i]),
    ensures
        digits_value(s.take(k)) <= digits_value(s),
    decreases s.len() - k,
{
    if k < s.len() {
        lemma_digits_value_prefix(s, k + 1);
        assert(s.take(k + 1).drop_last() =~= s.take(k));
        assert(is_digit(s[k]));
    } else {
        assert(s.take(k) =~= s);
    }
}

/// The value of the digit `c`.
fn digit_value(c: char) -> (d: u64)
    requires
        is_digit(c),
    ensures
        d == (c as nat) - ('0' as nat),
{
    (c as u32 - '0' as u32) as u64
}

/// Reads `s` as `u64::from_str` does: `Some` exactly when `s` is an optional
/// `+` followed by at least one decimal digit and the value fits in 64 bits.
pub fn parse_u64(s: &str) -> (r: Option<u64>)
    ensures
        r == parse_u64_spec(s@),
{
    let n = s.unicode_len();
    let mut start: usize = 0;
    if n > 0 && s.get_char(0) == '+' {
        start = 1;
    }
    let ghost b = unsigned_body(s@);
    assert(b =~= s@.skip(start as int));
    if start == n {
        return None;
    }
    let mut value: u64 = 0;
    let mut i: usize = start;
    assert(b.take(0) =~= Seq::<char>::empty());
    while i < n
        invariant
            n == s@.len(),
            start <= i <= n,
            b == s@.skip(start as int),
            b == unsigned_body(s@),
            forall|j: int| 0 <= j < i - start ==> is_digit(#[trigger] b[j]),
            value == digits_value(b.take(i - start)),
        decreases n - i,
    {
        let c = s.get_char(i);
        let k: usize = i - start;
        assert(b[k as int] == c);
        if !is_digit_exec(c) {
            assert(!is_digit(b[k as int]));
            return None;
        }
        let d = digit_value(c);
        assert(b.take(k + 1).drop_last() =~= b.take(k as int));
        assert(digits_value(b.take(k + 1)) == value * 10 + d);
        if value > (u64::MAX - d) / 10 {
            proof {
                assert(value * 10 + d > u64::MAX) by (nonlinear_arith)
                    requires
                        value > (u64::MAX - d) / 10,
                        d <= 9,
                ;
                if forall|j: int| 0 <= j < b.len() ==> is_digit(#[trigger] b[j]) {
                    lemma_digits_value_prefix(b, k + 1);
                }
            }
            return None;
        }
        value = value * 10 + d;
        i = i + 1;
    }
    assert(b.take(n - start) =~= b);
    Some(value)
}

fn is_digit_exec(c: char) -> (r: bool)
    ensures
        r == is_digit(c),
{
    '0' <= c && c <= '9'
}

} // verus!
