//! Parsing of raw control values.
//!
//! The angle and pointiness controls hand the editor a raw decimal string
//! (for example `"50"` or `"12.5"`). The editor divides the parsed value by
//! 100 to map the percentage-style control onto a unit-interval parameter.
//! To keep that normalization exact, parsed values are represented in
//! millionths (micros) of the raw value; the stored parameter, in turn, is
//! the raw value in micros, read as hundred-millionths of the unit interval.
//!
//! The accepted grammar is an optional sign, then decimal digits with at
//! most one point: `[+-]? (digits "."? digits? | "." digits)`, with at most
//! 12 integer digits and at most 6 fractional digits, so every accepted
//! value is exact in micros and fits comfortably in an `i64`. Anything else
//! is rejected and leaves the prior parameter value in force.

use vstd::prelude::*;

verus! {

/// True for the ASCII bytes `'0'..='9'`.
pub open spec fn is_ascii_digit(c: u8) -> bool {
    48 <= c && c <= 57
}

/// Numeric value of an ASCII digit byte.
pub open spec fn digit_val(c: u8) -> int {
    c - 48
}

/// Every byte of the sequence is an ASCII digit.
pub open spec fn all_digits(s: Seq<u8>) -> bool {
    forall|i: int| 0 <= i < s.len() ==> is_ascii_digit(#[trigger] s[i])
}

/// Value of a digit string, most significant digit first.
pub open spec fn digits_value(s: Seq<u8>) -> int
    decreases s.len(),
{
    if s.len() == 0 {
        0
    } else {
        digits_value(s.drop_last()) * 10 + digit_val(s.last())
    }
}

/// Ten to the power `n`.
pub open spec fn pow10(n: nat) -> int
    decreases n,
{
    if n == 0 {
        1
    } else {
        10 * pow10((n - 1) as nat)
    }
}

/// Index where the digits begin: 1 when a sign byte leads, else 0.
pub open spec fn body_start(s: Seq<u8>) -> int {
    if s.len() > 0 && (s[0] == 43 || s[0] == 45) {
        1
    } else {
        0
    }
}

/// The input without its optional leading sign.
pub open spec fn body_of(s: Seq<u8>) -> Seq<u8> {
    s.subrange(body_start(s), s.len() as int)
}

/// The input carries a leading minus sign.
pub open spec fn is_negative(s: Seq<u8>) -> bool {
    s.len() > 0 && s[0] == 45
}

/// Length of the run before the first `'.'` (the whole body when none).
pub open spec fn int_len(b: Seq<u8>) -> int
    decreases b.len(),
{
    if b.len() == 0 {
        0
    } else if b[0] == 46 {
        0
    } else {
        1 + int_len(b.subrange(1, b.len() as int))
    }
}

/// The digits before the decimal point.
pub open spec fn int_part(b: Seq<u8>) -> Seq<u8> {
    b.subrange(0, int_len(b))
}

/// The digits after the decimal point; empty when there is no point.
pub open spec fn frac_part(b: Seq<u8>) -> Seq<u8> {
    if int_len(b) < b.len() {
        b.subrange(int_len(b) + 1, b.len() as int)
    } else {
        Seq::empty()
    }
}

/// The input is a well-formed control value within the accepted bounds.
pub open spec fn control_value_ok(s: Seq<u8>) -> bool {
    let b = body_of(s);
    &&& b.len() > 0
    &&& all_digits(int_part(b))
    &&& all_digits(frac_part(b))
    &&& int_part(b).len() + frac_part(b).len() > 0
    &&& int_part(b).len() <= 12
    &&& frac_part(b).len() <= 6
}

/// Signed value of a well-formed control value, in micros of the raw value.
pub open spec fn control_value_micros(s: Seq<u8>) -> int {
    let b = body_of(s);
    let mag = digits_value(int_part(b)) * 1_000_000 + digits_value(frac_part(b)) * pow10(
        (6 - frac_part(b).len()) as nat,
    );
    if is_negative(s) {
        -mag
    } else {
        mag
    }
}

/// The parse result: the value in micros for a well-formed input, else `None`.
pub open spec fn parse_control(s: Seq<u8>) -> Option<i64> {
    if control_value_ok(s) {
        Some(control_value_micros(s) as i64)
    } else {
        None
    }
}

/// Fixed powers of ten used by the parser's bound reasoning.
proof fn lemma_pow10_values()
    ensures
        pow10(0) == 1,
        pow10(1) == 10,
        pow10(2) == 100,
        pow10(3) == 1000,
        pow10(4) == 10_000,
        pow10(5) == 100_000,
        pow10(6) == 1_000_000,
        pow10(11) == 100_000_000_000,
        pow10(12) == 1_000_000_000_000,
{
    assert(pow10(0) == 1);
    assert(pow10(1) == 10);
    assert(pow10(2) == 100);
    assert(pow10(3) == 1000);
    assert(pow10(4) == 10_000);
    assert(pow10(5) == 100_000);
    assert(pow10(6) == 1_000_000);
    assert(pow10(7) == 10_000_000);
    assert(pow10(8) == 100_000_000);
    assert(pow10(9) == 1_000_000_000);
    assert(pow10(10) == 10_000_000_000);
    assert(pow10(11) == 100_000_000_000);
    assert(pow10(12) == 1_000_000_000_000);
}

/// A digit string's value is nonnegative and below ten to its length.
proof fn lemma_digits_value_bound(s: Seq<u8>)
    requires
        all_digits(s),
    ensures
        0 <= digits_value(s) < pow10(s.len()),
    decreases s.len(),
{
    if s.len() == 0 {
    } else {
        assert(all_digits(s.drop_last()));
        lemma_digits_value_bound(s.drop_last());
        assert(digit_val(s.last()) <= 9);
        assert(digits_value(s.drop_last()) <= pow10((s.len() - 1) as nat) - 1);
        assert(pow10(s.len()) == 10 * pow10((s.len() - 1) as nat));
    }
}

/// The integer-part length never exceeds the body's length.
proof fn lemma_int_len_bounds(b: Seq<u8>)
    ensures
        0 <= int_len(b) <= b.len(),
    decreases b.len(),
{
    if b.len() == 0 {
    } else if b[0] == 46 {
    } else {
        lemma_int_len_bounds(b.subrange(1, b.len() as int));
    }
}

/// Powers of ten grow with the exponent.
proof fn lemma_pow10_le(a: nat, b: nat)
    requires
        a <= b,
    ensures
        pow10(a) <= pow10(b),
{
    lemma_pow10_adds(a, (b - a) as nat);
    lemma_pow10_ge_one(a);
    lemma_pow10_ge_one((b - a) as nat);
    assert(pow10(a) * 1 <= pow10(a) * pow10((b - a) as nat))
        by (nonlinear_arith)
        requires
            pow10(a) >= 1,
            pow10((b - a) as nat) >= 1,
    ;
}

/// `int_len` is exactly the index of the first point (or the length).
proof fn lemma_int_len_at(b: Seq<u8>, k: int)
    requires
        0 <= k <= b.len(),
        forall|j: int| 0 <= j < k ==> b[j] != 46,
        k == b.len() || b[k] == 46,
    ensures
        int_len(b) == k,
    decreases b.len(),
{
    if b.len() == 0 {
    } else if b[0] == 46 {
        assert(k == 0);
    } else {
        assert(k > 0);
        let t = b.subrange(1, b.len() as int);
        assert(forall|j: int| 0 <= j < k - 1 ==> t[j] != 46);
        assert(k - 1 == t.len() || t[k - 1] == 46);
        lemma_int_len_at(t, k - 1);
    }
}

/// When no point occurs before `k`, the integer part reaches at least `k`.
proof fn lemma_int_len_ge(b: Seq<u8>, k: int)
    requires
        0 <= k <= b.len(),
        forall|j: int| 0 <= j < k ==> b[j] != 46,
    ensures
        int_len(b) >= k,
    decreases b.len(),
{
    if k == 0 {
        if b.len() == 0 {
        } else if b[0] == 46 {
        } else {
            let t = b.subrange(1, b.len() as int);
            lemma_int_len_ge(t, 0);
        }
    } else {
        assert(b[0] != 46);
        let t = b.subrange(1, b.len() as int);
        assert(forall|j: int| 0 <= j < k - 1 ==> t[j] != 46);
        lemma_int_len_ge(t, k - 1);
    }
}

/// Ten-power of a sum is the product of the ten-powers.
proof fn lemma_pow10_adds(a: nat, b: nat)
    ensures
        pow10(a + b) == pow10(a) * pow10(b),
    decreases a,
{
    if a == 0 {
    } else {
        lemma_pow10_adds((a - 1) as nat, b);
        assert(pow10(a + b) == 10 * pow10((a + b - 1) as nat));
        assert(pow10(a) * pow10(b) == (10 * pow10((a - 1) as nat)) * pow10(b))
            by (nonlinear_arith)
            requires
                pow10(a) == 10 * pow10((a - 1) as nat),
        ;
        assert((10 * pow10((a - 1) as nat)) * pow10(b) == 10 * (pow10((a - 1) as nat) * pow10(b)))
            by (nonlinear_arith);
    }
}

/// Ten to the power `e`, executable, for the small exponents the parser needs.
fn pow10_u64(e: usize) -> (r: u64)
    requires
        e <= 6,
    ensures
        r == pow10(e as nat),
{
    proof {
        lemma_pow10_values();
    }
    match e {
        0 => 1,
        1 => 10,
        2 => 100,
        3 => 1000,
        4 => 10_000,
        5 => 100_000,
        _ => 1_000_000,
    }
}

/// Parses a raw control value into micros of the raw number.
///
/// Returns `Some(v)` exactly when the input is a well-formed decimal within
/// the accepted bounds, with `v` the value in millionths; returns `None`
/// otherwise, so a caller can retain its prior value on malformed input.
pub fn parse_control_micros(s: &Vec<u8>) -> (r: Option<i64>)
    ensures
        r == parse_control(s@),
{
    let n: usize = s.len();
    let start: usize = if n > 0 && (s[0] == 43u8 || s[0] == 45u8) {
        1
    } else {
        0
    };
    let neg: bool = n > 0 && s[0] == 45u8;
    proof {
        assert(start as int == body_start(s@));
        assert(neg == is_negative(s@));
    }
    if start >= n {
        proof {
            assert(body_of(s@).len() == 0);
        }
        return None;
    }
    let ghost b = body_of(s@);
    proof {
        assert(b =~= s@.subrange(start as int, n as int));
        lemma_pow10_values();
    }

    let mut i: usize = start;
    let mut int_val: u64 = 0;
    while i < n && s[i] != 46u8
        invariant
            start <= i <= n,
            n == s@.len(),
            start as int == body_start(s@),
            b == body_of(s@),
            b =~= s@.subrange(start as int, n as int),
            forall|j: int| start <= j < i ==> s@[j] != 46 && is_ascii_digit(#[trigger] s@[j]),
            int_val == digits_value(s@.subrange(start as int, i as int)),
            i - start <= 12,
        decreases n - i,
    {
        let c = s[i];
        let ghost p = i - start;
        proof {
            lemma_int_len_bounds(b);
            assert(forall|j: int| 0 <= j < p + 1 ==> (#[trigger] b[j]) != 46) by {
                assert(forall|j: int| 0 <= j < p ==> b[j] == s@[start + j] && b[j] != 46);
                assert(b[p] == s@[i as int]);
            }
            lemma_int_len_ge(b, p + 1);
        }
        if !(48u8 <= c && c <= 57u8) {
            proof {
                assert(int_part(b)[p] == b[p]);
                assert(b[p] == s@[i as int]);
                assert(!is_ascii_digit(int_part(b)[p]));
                assert(!control_value_ok(s@));
            }
            return None;
        }
        if i - start == 12 {
            proof {
                assert(int_part(b).len() == int_len(b));
                assert(int_part(b).len() > 12);
                assert(!control_value_ok(s@));
            }
            return None;
        }
        proof {
            let pref = s@.subrange(start as int, i as int);
            assert(all_digits(pref));
            lemma_digits_value_bound(pref);
            lemma_pow10_le(pref.len(), 11);
            lemma_pow10_values();
            assert(int_val < 100_000_000_000);
        }
        int_val = int_val * 10 + ((c - 48u8) as u64);
        i = i + 1;
        proof {
            let ext = s@.subrange(start as int, i as int);
            assert(ext.drop_last() =~= s@.subrange(start as int, i - 1));
            assert(ext.last() == s@[i - 1]);
        }
    }
    let int_digits: usize = i - start;
    proof {
        lemma_int_len_bounds(b);
        assert(forall|j: int| 0 <= j < int_digits ==> (#[trigger] b[j]) != 46
            && is_ascii_digit(b[j])) by {
            assert(forall|j: int| 0 <= j < int_digits ==> b[j] == s@[start + j]);
        }
        if i < n {
            assert(b[int_digits as int] == s@[i as int]);
        }
        lemma_int_len_at(b, int_digits as int);
        assert(int_len(b) == int_digits as int);
        assert(int_part(b) =~= s@.subrange(start as int, i as int));
        assert(all_digits(int_part(b)));
        lemma_digits_value_bound(int_part(b));
        lemma_pow10_le(int_digits as nat, 12);
        assert(int_val < 1_000_000_000_000);
    }

    if i == n {
        // No decimal point: the fractional part is empty.
        if int_digits == 0 {
            proof {
                assert(!control_value_ok(s@));
            }
            return None;
        }
        proof {
            assert(frac_part(b) =~= Seq::<u8>::empty());
            assert(control_value_ok(s@));
            assert(digits_value(frac_part(b)) == 0);
        }
        let micros: u64 = int_val * 1_000_000u64;
        let signed: i64 = if neg {
            -(micros as i64)
        } else {
            micros as i64
        };
        proof {
            assert(control_value_micros(s@) == signed as int);
        }
        return Some(signed);
    }

    // A decimal point stands at `i`; scan the fractional digits.
    let ghost fp = frac_part(b);
    proof {
        assert(int_len(b) == int_digits as int);
        assert(fp =~= s@.subrange(i + 1, n as int));
    }
    let mut j: usize = i + 1;
    let mut frac_val: u64 = 0;
    while j < n
        invariant
            i + 1 <= j <= n,
            i < n,
            n == s@.len(),
            start as int == body_start(s@),
            b == body_of(s@),
            b =~= s@.subrange(start as int, n as int),
            int_len(b) == i - start,
            fp == frac_part(b),
            fp =~= s@.subrange(i + 1, n as int),
            fp.len() == n - i - 1,
            forall|k: int| i + 1 <= k < j ==> is_ascii_digit(#[trigger] s@[k]),
            frac_val == digits_value(s@.subrange(i + 1, j as int)),
            j - i - 1 <= 6,
        decreases n - j,
    {
        let c = s[j];
        let ghost p = j - i - 1;
        if !(48u8 <= c && c <= 57u8) {
            proof {
                assert(fp[p] == s@[j as int]);
                assert(!is_ascii_digit(fp[p]));
                assert(!control_value_ok(s@));
            }
            return None;
        }
        if j - i - 1 == 6 {
            proof {
                assert(fp.len() > 6);
                assert(!control_value_ok(s@));
            }
            return None;
        }
        proof {
            let pref = s@.subrange(i + 1, j as int);
            assert(all_digits(pref));
            lemma_digits_value_bound(pref);
            lemma_pow10_le(pref.len(), 5);
            lemma_pow10_values();
            assert(frac_val < 100_000);
        }
        frac_val = frac_val * 10 + ((c - 48u8) as u64);
        j = j + 1;
        proof {
            let ext = s@.subrange(i + 1, j as int);
            assert(ext.drop_last() =~= s@.subrange(i + 1, j - 1));
            assert(ext.last() == s@[j - 1]);
        }
    }
    let frac_digits: usize = j - i - 1;
    proof {
        assert(fp =~= s@.subrange(i + 1, j as int));
        assert(all_digits(fp));
        lemma_digits_value_bound(fp);
    }
    if int_digits == 0 && frac_digits == 0 {
        proof {
            assert(int_part(b).len() + frac_part(b).len() == 0);
            assert(!control_value_ok(s@));
        }
        return None;
    }
    proof {
        assert(control_value_ok(s@));
    }
    let mult: u64 = pow10_u64(6 - frac_digits);
    proof {
        assert(frac_val < pow10(frac_digits as nat));
        lemma_pow10_adds(frac_digits as nat, (6 - frac_digits) as nat);
        assert(frac_val * mult <= (pow10(frac_digits as nat) - 1) * mult)
            by (nonlinear_arith)
            requires
                frac_val <= pow10(frac_digits as nat) - 1,
                mult >= 0,
        ;
        assert((pow10(frac_digits as nat) - 1) * (mult as int) == pow10(frac_digits as nat) * (
        mult as int) - mult)
            by (nonlinear_arith);
        assert(frac_val * mult < 1_000_000);
        assert(int_val < 1_000_000_000_000);
    }
    let micros: u64 = int_val * 1_000_000u64 + frac_val * mult;
    let signed: i64 = if neg {
        -(micros as i64)
    } else {
        micros as i64
    };
    proof {
        assert(control_value_micros(s@) == signed as int);
    }
    Some(signed)
}

/// Every power of ten is at least one.
proof fn lemma_pow10_ge_one(n: nat)
    ensures
        pow10(n) >= 1,
    decreases n,
{
    if n == 0 {
    } else {
        lemma_pow10_ge_one((n - 1) as nat);
    }
}

} // verus!
