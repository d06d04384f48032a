//! Decimal text to fixed-point integers.
//!
//! The feed writes prices and quantities as decimal text. The engine counts
//! in whole steps of the smallest unit, so `"101.5"` read with two fractional
//! digits is the integer 10150. Nothing is rounded: text with more fractional
//! digits than asked for, or with a value beyond an `i64`, is refused.

use vstd::prelude::*;

verus! {

/// The byte of the minus sign.
pub const MINUS: u8 = 45;

/// The byte of the decimal point.
pub const POINT: u8 = 46;

/// The byte of the digit zero.
pub const ZERO: u8 = 48;

/// The byte of the digit nine.
pub const NINE: u8 = 57;

/// The largest magnitude that fits an `i64`: the magnitude of its minimum.
pub const MAGNITUDE_LIMIT: u128 = 0x8000_0000_0000_0000;

/// Whether `b` is one of the ten digits.
pub open spec fn is_digit(b: u8) -> bool {
    ZERO <= b <= NINE
}

/// Whether every byte of `s` is a digit.
pub open spec fn all_digits(s: Seq<u8>) -> bool {
    forall|i: int| 0 <= i < s.len() ==> is_digit(#[trigger] s[i])
}

/// What the byte `b` counts as a digit; a byte that is no digit counts nothing.
pub open spec fn digit_of(b: u8) -> nat {
    if is_digit(b) {
        (b - ZERO) as nat
    } else {
        0
    }
}

/// The number that the digits of `s` write in base ten.
pub open spec fn digits_value(s: Seq<u8>) -> nat
    decreases s.len(),
{
    if s.len() == 0 {
        0
    } else {
        digits_value(s.drop_last()) * 10 + digit_of(s.last())
    }
}

/// Ten to the power `n`.
pub open spec fn pow10(n: nat) -> nat
    decreases n,
{
    if n == 0 {
        1
    } else {
        10 * pow10((n - 1) as nat)
    }
}

/// The index of the first decimal point in `s`, or its length if it has none.
pub open spec fn point_at(s: Seq<u8>) -> int
    decreases s.len(),
{
    if s.len() == 0 || s[0] == POINT {
        0
    } else {
        1 + point_at(s.drop_first())
    }
}

/// The digits before the first point of `body`.
pub open spec fn whole_part(body: Seq<u8>) -> Seq<u8> {
    body.take(point_at(body))
}

/// What follows the first point of `body`; nothing if it has no point.
pub open spec fn fraction_part(body: Seq<u8>) -> Seq<u8> {
    if point_at(body) < body.len() {
        body.skip(point_at(body) + 1)
    } else {
        Seq::empty()
    }
}

/// Whether `body` is an unsigned decimal with at most `frac_digits` digits
/// after the point: one or more digits, then nothing or a point with one or
/// more digits.
pub open spec fn well_formed(body: Seq<u8>, frac_digits: nat) -> bool {
    &&& whole_part(body).len() >= 1
    &&& all_digits(whole_part(body))
    &&& all_digits(fraction_part(body))
    &&& fraction_part(body).len() <= frac_digits
    &&& point_at(body) < body.len() ==> fraction_part(body).len() >= 1
}

/// The value of a well-formed `body` in steps of `10^-frac_digits`: its
/// digits read without the point, with a zero for each fractional digit that
/// it leaves out.
pub open spec fn magnitude(body: Seq<u8>, frac_digits: nat) -> nat {
    digits_value(whole_part(body) + fraction_part(body)) * pow10(
        (frac_digits - fraction_part(body).len()) as nat,
    )
}

/// The value of `text` in steps of `10^-frac_digits`, where `text` is a
/// decimal with an optional minus sign in front; `None` where it is not.
pub open spec fn decimal_value(text: Seq<u8>, frac_digits: nat) -> Option<int> {
    if text.len() > 0 && text[0] == MINUS {
        if well_formed(text.skip(1), frac_digits) {
            Some(-(magnitude(text.skip(1), frac_digits) as int))
        } else {
            None
        }
    } else {
        if well_formed(text, frac_digits) {
            Some(magnitude(text, frac_digits) as int)
        } else {
            None
        }
    }
}

/// The value of `text` as an `i64`, where it has one.
pub open spec fn parsed(text: Seq<u8>, frac_digits: nat) -> Option<i64> {
    match decimal_value(text, frac_digits) {
        Some(v) => if i64::MIN <= v <= i64::MAX {
            Some(v as i64)
        } else {
            None
        },
        None => None,
    }
}

proof fn lemma_point_at(s: Seq<u8>)
    ensures
        0 <= point_at(s) <= s.len(),
        forall|k: int| 0 <= k < point_at(s) ==> s[k] != POINT,
        point_at(s) < s.len() ==> s[point_at(s)] == POINT,
    decreases s.len(),
{
    if s.len() > 0 && s[0] != POINT {
        let rest = s.drop_first();
        lemma_point_at(rest);
        assert forall|k: int| 0 <= k < point_at(s) implies s[k] != POINT by {
            if k > 0 {
                assert(s[k] == rest[k - 1]);
            }
        }
    }
}

/// The first point is where a point stands with none before it.
proof fn lemma_point_at_is(s: Seq<u8>, j: int)
    requires
        0 <= j <= s.len(),
        forall|k: int| 0 <= k < j ==> s[k] != POINT,
        j < s.len() ==> s[j] == POINT,
    ensures
        point_at(s) == j,
{
    lemma_point_at(s);
}

/// No point among the first `j` bytes puts the first point at `j` or later.
proof fn lemma_point_at_least(s: Seq<u8>, j: int)
    requires
        0 <= j <= s.len(),
        forall|k: int| 0 <= k < j ==> s[k] != POINT,
    ensures
        point_at(s) >= j,
{
    lemma_point_at(s);
}

proof fn lemma_digits_push(s: Seq<u8>, b: u8)
    ensures
        digits_value(s.push(b)) == digits_value(s) * 10 + digit_of(b),
{
    assert(s.push(b).drop_last() == s);
}

/// The digits read so far never write more than all the digits do.
proof fn lemma_digits_prefix(s: Seq<u8>, j: int)
    requires
        0 <= j <= s.len(),
    ensures
        digits_value(s.take(j)) <= digits_value(s),
    decreases s.len(),
{
    if j == s.len() {
        assert(s.take(j) == s);
    } else {
        lemma_digits_prefix(s.drop_last(), j);
        assert(s.drop_last().take(j) == s.take(j));
    }
}

proof fn lemma_pow10_grows(a: nat, b: nat)
    requires
        a <= b,
    ensures
        1 <= pow10(a) <= pow10(b),
    decreases b,
{
    if a < b {
        lemma_pow10_grows(a, (b - 1) as nat);
    } else if a > 0 {
        lemma_pow10_grows((a - 1) as nat, (a - 1) as nat);
    }
}

proof fn lemma_times_one(x: nat)
    ensures
        x * pow10(0) == x,
{
    let one = pow10(0);
    assert(one == 1);
    assert(x * one == x) by (nonlinear_arith)
        requires
            one == 1,
    ;
}

/// A well-formed body is worth at least the number that any leading part of
/// its digits writes, padded with up to as many zeros as the body is.
proof fn lemma_magnitude_at_least(body: Seq<u8>, frac_digits: nat, j: int, pad: nat)
    requires
        well_formed(body, frac_digits),
        0 <= j <= (whole_part(body) + fraction_part(body)).len(),
        pad <= frac_digits - fraction_part(body).len(),
    ensures
        magnitude(body, frac_digits) >= digits_value(
            (whole_part(body) + fraction_part(body)).take(j),
        ) * pow10(pad),
{
    let digits = whole_part(body) + fraction_part(body);
    let full = (frac_digits - fraction_part(body).len()) as nat;
    lemma_digits_prefix(digits, j);
    lemma_pow10_grows(pad, full);
    let a = digits_value(digits.take(j));
    let b = digits_value(digits);
    let p = pow10(pad);
    let q = pow10(full);
    assert(a * p <= b * q) by (nonlinear_arith)
        requires
            0 <= a <= b,
            0 <= p <= q,
    ;
}

/// Reads the unsigned decimal that `text` holds from `start` on.
fn parse_magnitude(text: &[u8], start: usize, frac_digits: u8) -> (value: Option<u128>)
    requires
        start <= text.len(),
    ensures
        value == if well_formed(text@.skip(start as int), frac_digits as nat) && magnitude(
            text@.skip(start as int),
            frac_digits as nat,
        ) <= MAGNITUDE_LIMIT {
            Some(magnitude(text@.skip(start as int), frac_digits as nat) as u128)
        } else {
            None
        },
{
    let ghost body = text@.skip(start as int);
    let ghost places = frac_digits as nat;
    let n = text.len();
    let mut i: usize = start;
    let mut acc: u128 = 0;
    proof {
        lemma_point_at(body);
        assert(body.take(0) =~= Seq::<u8>::empty());
    }
    while i < n && text[i] != POINT
        invariant
            start <= i <= n,
            n == text.len(),
            body == text@.skip(start as int),
            places == frac_digits,
            all_digits(body.take(i - start)),
            forall|k: int| 0 <= k < i - start ==> body[k] != POINT,
            acc == digits_value(body.take(i - start)),
            acc <= MAGNITUDE_LIMIT,
        decreases n - i,
    {
        let b = text[i];
        let ghost seen = body.take(i - start);
        proof {
            assert(body[i - start] == b);
            assert(body.take(i - start + 1) =~= seen.push(b));
            lemma_digits_push(seen, b);
            lemma_point_at(body);
            lemma_point_at_least(body, i - start + 1);
        }
        if b < ZERO || b > NINE {
            proof {
                assert(whole_part(body)[i - start] == b);
            }
            return None;
        }
        acc = acc * 10 + (b - ZERO) as u128;
        if acc > MAGNITUDE_LIMIT {
            proof {
                if well_formed(body, places) {
                    assert((whole_part(body) + fraction_part(body)).take(i - start + 1)
                        =~= body.take(i - start + 1));
                    lemma_magnitude_at_least(body, places, i - start + 1, 0);
                    lemma_times_one(acc as nat);
                }
            }
            return None;
        }
        i = i + 1;
    }
    proof {
        lemma_point_at_is(body, i - start);
    }
    if i == start {
        return None;
    }
    let ghost whole = whole_part(body);
    let mut taken: u8 = 0;
    if i < n {
        let point = i;
        i = i + 1;
        proof {
            assert(body.skip(point - start + 1).take(0) =~= Seq::<u8>::empty());
            assert(whole + Seq::<u8>::empty() =~= whole);
        }
        while i < n
            invariant
                start < point < i <= n,
                n == text.len(),
                body == text@.skip(start as int),
                places == frac_digits,
                whole == whole_part(body),
                point_at(body) == point - start,
                whole.len() >= 1,
                all_digits(whole),
                taken == i - point - 1,
                taken <= frac_digits,
                all_digits(fraction_part(body).take(taken as int)),
                acc == digits_value(whole + fraction_part(body).take(taken as int)),
                acc <= MAGNITUDE_LIMIT,
            decreases n - i,
        {
            let b = text[i];
            let ghost fraction = fraction_part(body);
            let ghost seen = fraction.take(taken as int);
            proof {
                assert(fraction[taken as int] == b);
                assert(fraction.take(taken + 1) =~= seen.push(b));
                assert(whole + seen.push(b) =~= (whole + seen).push(b));
                lemma_digits_push(whole + seen, b);
            }
            if b < ZERO || b > NINE {
                return None;
            }
            if taken == frac_digits {
                return None;
            }
            acc = acc * 10 + (b - ZERO) as u128;
            if acc > MAGNITUDE_LIMIT {
                proof {
                    if well_formed(body, places) {
                        assert((whole + fraction).take(whole.len() + taken + 1) =~= whole
                            + fraction.take(taken + 1));
                        lemma_magnitude_at_least(body, places, whole.len() + taken + 1, 0);
                        lemma_times_one(acc as nat);
                    }
                }
                return None;
            }
            taken = taken + 1;
            i = i + 1;
        }
        proof {
            assert(fraction_part(body).take(taken as int) =~= fraction_part(body));
        }
        if taken == 0 {
            return None;
        }
    } else {
        proof {
            assert(whole + Seq::<u8>::empty() =~= whole);
            assert(body.take(i - start) =~= whole);
        }
    }
    let ghost fraction = fraction_part(body);
    assert(well_formed(body, places));
    proof {
        lemma_times_one(acc as nat);
    }
    let mut padded: u8 = taken;
    while padded < frac_digits
        invariant
            taken <= padded <= frac_digits,
            taken == fraction.len(),
            fraction == fraction_part(body),
            whole == whole_part(body),
            places == frac_digits,
            body == text@.skip(start as int),
            well_formed(body, places),
            acc == digits_value(whole + fraction) * pow10((padded - taken) as nat),
            acc <= MAGNITUDE_LIMIT,
        decreases frac_digits - padded,
    {
        proof {
            let d = digits_value(whole + fraction);
            let p = pow10((padded - taken) as nat);
            assert(pow10((padded + 1 - taken) as nat) == 10 * p);
            assert(d * (10 * p) == (d * p) * 10) by (nonlinear_arith);
        }
        acc = acc * 10;
        if acc > MAGNITUDE_LIMIT {
            proof {
                assert((whole + fraction).take((whole + fraction).len() as int) =~= whole
                    + fraction);
                lemma_magnitude_at_least(
                    body,
                    places,
                    (whole + fraction).len() as int,
                    (padded + 1 - taken) as nat,
                );
            }
            return None;
        }
        padded = padded + 1;
    }
    Some(acc)
}

/// Reads decimal text as a count of steps of `10^-frac_digits`.
///
/// The text is an optional minus sign, one or more digits, and optionally a
/// point followed by one to `frac_digits` digits. Anything else, and a value
/// that does not fit an `i64`, gives `None`.
pub fn parse_decimal(text: &[u8], frac_digits: u8) -> (value: Option<i64>)
    ensures
        value == parsed(text@, frac_digits as nat),
{
    let negative = text.len() > 0 && text[0] == MINUS;
    if negative {
        match parse_magnitude(text, 1, frac_digits) {
            Some(m) => Some((-(m as i128)) as i64),
            None => None,
        }
    } else {
        proof {
            assert(text@.skip(0) =~= text@);
        }
        match parse_magnitude(text, 0, frac_digits) {
            Some(m) => {
                if m <= i64::MAX as u128 {
                    Some(m as i64)
                } else {
                    None
                }
            },
            None => None,
        }
    }
}

} // verus!
