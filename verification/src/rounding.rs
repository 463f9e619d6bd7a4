//! Rounding to single and to double precision.
//!
//! AppKit computes in double precision and applications draw in single precision. A coordinate
//! here is a whole number of units far smaller than a point, so a sum or a difference is exact
//! until it is rounded as the floating-point operation rounds it: to the nearest number with 24 or
//! 53 significant binary digits, and between two of them to the even one.

use vstd::arithmetic::div_mod::{lemma_fundamental_div_mod, lemma_mod_decreases};
use vstd::arithmetic::div_mod::{lemma_div_by_multiple, lemma_mod_multiples_basic};
use vstd::arithmetic::power2::{lemma2_to64, lemma_pow2_pos, lemma_pow2_unfold, pow2};
use vstd::prelude::*;

verus! {

/// The first whole number that needs more digits than single precision has.
pub const SINGLE_LIMIT: u128 = 0x100_0000;

/// The first whole number that needs more digits than double precision has.
pub const DOUBLE_LIMIT: u128 = 0x20_0000_0000_0000;

/// The multiple of `unit` nearest to `magnitude`; the even multiple of two that are.
pub open spec fn nearest(magnitude: int, unit: int) -> int {
    let rest = magnitude % unit;
    if 2 * rest > unit || (2 * rest == unit && (magnitude / unit) % 2 == 1) {
        magnitude - rest + unit
    } else {
        magnitude - rest
    }
}

/// Rounds to a multiple of `unit` what is below `limit`, and doubles both for what is not.
#[verifier::opaque]
pub open spec fn rounded(magnitude: int, limit: int, unit: int) -> int
    decreases 2 * magnitude - limit,
    when limit > 0
{
    if magnitude < limit {
        nearest(magnitude, unit)
    } else {
        rounded(magnitude, 2 * limit, 2 * unit)
    }
}

/// `value`, with the sign that it has, rounded to so many significant digits that `limit` is the
/// first whole number with more.
pub open spec fn rounded_to(value: int, limit: int) -> int {
    if value >= 0 {
        rounded(value, limit, 1)
    } else {
        -rounded(-value, limit, 1)
    }
}

/// Whether `value` is a multiple of `2^24` with at most 24 significant digits. A coordinate is, if
/// it is a whole number of 256ths of a point, up to 65536 points.
pub open spec fn is_plain(value: int) -> bool {
    value % 0x100_0000 == 0 && -0x1_0000_0000_0000 < value < 0x1_0000_0000_0000
}

/// Whether `value` is a multiple of `2^24` so small that the sum of eight of them is plain. A
/// coordinate is, if it is a whole number of 256ths of a point, up to 8192 points.
pub open spec fn is_everyday(value: int) -> bool {
    value % 0x100_0000 == 0 && -0x2000_0000_0000 < value < 0x2000_0000_0000
}

/// `value` in single precision: [`rounded_to`] 24 significant digits, which changes no plain
/// number; see [`single_has_24_digits`].
pub open spec fn single(value: int) -> int {
    if is_plain(value) {
        value
    } else {
        rounded_to(value, SINGLE_LIMIT as int)
    }
}

/// `value` in double precision: [`rounded_to`] 53 significant digits, which changes no plain
/// number; see [`double_has_53_digits`].
pub open spec fn double(value: int) -> int {
    if is_plain(value) {
        value
    } else {
        rounded_to(value, DOUBLE_LIMIT as int)
    }
}

/// Whether single precision has `value`.
pub open spec fn is_single(value: int) -> bool {
    single(value) == value
}

/// Whether double precision has `value`.
pub open spec fn is_double(value: int) -> bool {
    double(value) == value
}

/// The values for which the functions of this module are meant.
pub open spec fn computable(value: int) -> bool {
    -0x100_0000_0000_0000_0000_0000_0000 < value < 0x100_0000_0000_0000_0000_0000_0000
}

/// Half a unit at most is lost, and `digits` of those units make up at most twice the magnitude.
proof fn lemma_rounding_error(magnitude: int, limit: int, unit: int, digits: int)
    requires
        magnitude >= 0,
        unit > 0,
        digits > 0,
        limit == unit * digits,
        unit == 1 || limit <= 2 * magnitude,
    ensures
        -magnitude <= (rounded(magnitude, limit, unit) - magnitude) * digits <= magnitude,
    decreases 2 * magnitude - limit,
{
    reveal_with_fuel(rounded, 2);
    assert(limit > 0) by (nonlinear_arith)
        requires
            limit == unit * digits,
            unit > 0,
            digits > 0,
    ;
    if magnitude < limit {
        let error = nearest(magnitude, unit) - magnitude;
        assert(-unit <= 2 * error <= unit);
        if unit == 1 {
            assert(magnitude % 1 == 0);
            assert(error == 0);
            assert(error * digits == 0) by (nonlinear_arith)
                requires
                    error == 0,
            ;
        } else {
            assert(-limit <= 2 * (error * digits) <= limit) by (nonlinear_arith)
                requires
                    -unit <= 2 * error <= unit,
                    limit == unit * digits,
                    digits > 0,
            ;
        }
    } else {
        assert(2 * limit == (2 * unit) * digits) by (nonlinear_arith)
            requires
                limit == unit * digits,
        ;
        lemma_rounding_error(magnitude, 2 * limit, 2 * unit, digits);
    }
}

proof fn lemma_nearest_monotone(low: int, high: int, unit: int)
    requires
        0 <= low <= high,
        unit > 0,
    ensures
        nearest(low, unit) <= nearest(high, unit),
{
    let p = low / unit;
    let q = high / unit;
    lemma_fundamental_div_mod(low, unit);
    lemma_fundamental_div_mod(high, unit);
    assert(p <= q) by (nonlinear_arith)
        requires
            low == unit * p + low % unit,
            high == unit * q + high % unit,
            0 <= low % unit < unit,
            0 <= high % unit < unit,
            low <= high,
    ;
    if p < q {
        assert(unit * p + unit <= unit * q) by (nonlinear_arith)
            requires
                p < q,
                unit > 0,
        ;
    }
}

proof fn lemma_rounded_monotone(low: int, high: int, limit: int, unit: int)
    requires
        0 <= low <= high,
        unit > 0,
        limit > 0,
        limit % (2 * unit) == 0,
    ensures
        rounded(low, limit, unit) <= rounded(high, limit, unit),
    decreases 2 * high - limit,
{
    reveal_with_fuel(rounded, 2);
    lemma_fundamental_div_mod(limit, 2 * unit);
    let half = limit / (2 * unit);
    assert((2 * limit) % (2 * (2 * unit)) == 0) by {
        assert(2 * limit == (2 * (2 * unit)) * half) by (nonlinear_arith)
            requires
                limit == (2 * unit) * half + 0,
        ;
        lemma_mod_multiples_basic(half, 2 * (2 * unit));
        assert(half * (2 * (2 * unit)) == (2 * (2 * unit)) * half) by (nonlinear_arith);
    }
    if high < limit {
        lemma_nearest_monotone(low, high, unit);
    } else if low >= limit {
        lemma_rounded_monotone(low, high, 2 * limit, 2 * unit);
    } else {
        assert(limit % unit == 0) by {
            assert(limit == (2 * half) * unit) by (nonlinear_arith)
                requires
                    limit == (2 * unit) * half + 0,
            ;
            lemma_mod_multiples_basic(2 * half, unit);
        }
        lemma_nearest_monotone(low, limit, unit);
        assert(nearest(limit, unit) == limit);
        assert(nearest(limit, 2 * unit) == limit);
        lemma_rounded_monotone(limit, high, 2 * limit, 2 * unit);
        assert(rounded(limit, 2 * limit, 2 * unit) == nearest(limit, 2 * unit));
    }
}

proof fn lemma_rounded_is_positive(magnitude: int, limit: int, unit: int)
    requires
        magnitude >= 0,
        limit > 0,
        unit > 0,
    ensures
        rounded(magnitude, limit, unit) >= 0,
    decreases 2 * magnitude - limit,
{
    reveal_with_fuel(rounded, 2);
    if magnitude < limit {
        lemma_mod_decreases(magnitude as nat, unit as nat);
    } else {
        lemma_rounded_is_positive(magnitude, 2 * limit, 2 * unit);
    }
}

proof fn lemma_multiple_is_exact(
    magnitude: int,
    limit: int,
    unit: int,
    digits: int,
    count: int,
    exponent: nat,
)
    requires
        0 <= count < digits,
        unit > 0,
        limit == unit * digits,
        magnitude == count * (unit * pow2(exponent)),
    ensures
        rounded(magnitude, limit, unit) == magnitude,
    decreases exponent,
{
    reveal_with_fuel(rounded, 2);
    lemma_pow2_pos(exponent);
    let factor = pow2(exponent) as int;
    assert(limit > 0) by (nonlinear_arith)
        requires
            limit == unit * digits,
            unit > 0,
            digits > 0,
    ;
    if magnitude < limit {
        assert(magnitude == (count * factor) * unit) by (nonlinear_arith)
            requires
                magnitude == count * (unit * factor),
        ;
        lemma_mod_multiples_basic(count * factor, unit);
    } else {
        if exponent == 0 {
            lemma2_to64();
            assert(magnitude < limit) by (nonlinear_arith)
                requires
                    magnitude == count * (unit * 1),
                    limit == unit * digits,
                    count < digits,
                    unit > 0,
            ;
        }
        lemma_pow2_unfold(exponent);
        let less = pow2((exponent - 1) as nat) as int;
        assert(magnitude == count * ((2 * unit) * less)) by (nonlinear_arith)
            requires
                magnitude == count * (unit * factor),
                factor == 2 * less,
        ;
        assert(2 * limit == (2 * unit) * digits) by (nonlinear_arith)
            requires
                limit == unit * digits,
        ;
        lemma_multiple_is_exact(
            magnitude,
            2 * limit,
            2 * unit,
            digits,
            count,
            (exponent - 1) as nat,
        );
    }
}

proof fn lemma_digits_are_kept(count: int, exponent: nat, digits: int)
    requires
        -digits < count < digits,
    ensures
        rounded_to(count * pow2(exponent), digits) == count * pow2(exponent),
{
    lemma_pow2_pos(exponent);
    let factor = pow2(exponent) as int;
    let magnitude = if count >= 0 {
        count
    } else {
        -count
    };
    let value = count * factor;
    assert(magnitude * (1 * factor) == if count >= 0 {
        value
    } else {
        -value
    }) by (nonlinear_arith)
        requires
            value == count * factor,
            magnitude == if count >= 0 {
                count
            } else {
                -count
            },
    ;
    assert(count >= 0 <==> value >= 0) by (nonlinear_arith)
        requires
            value == count * factor,
            factor > 0,
    ;
    lemma_multiple_is_exact(
        magnitude * (1 * factor),
        digits,
        1,
        digits,
        magnitude,
        exponent,
    );
}

proof fn lemma_plain_is_kept(value: int, digits: int)
    requires
        is_plain(value),
        digits >= 0x100_0000,
    ensures
        rounded_to(value, digits) == value,
{
    let count = value / 0x100_0000;
    lemma2_to64();
    lemma_fundamental_div_mod(value, 0x100_0000);
    lemma_digits_are_kept(count, 24, digits);
}

/// Single precision keeps 24 significant digits of every number.
pub proof fn single_has_24_digits(value: int)
    ensures
        single(value) == rounded_to(value, 0x100_0000),
{
    if is_plain(value) {
        lemma_plain_is_kept(value, 0x100_0000);
    }
}

/// Double precision keeps 53 significant digits of every number.
pub proof fn double_has_53_digits(value: int)
    ensures
        double(value) == rounded_to(value, 0x20_0000_0000_0000),
{
    if is_plain(value) {
        lemma_plain_is_kept(value, 0x20_0000_0000_0000);
    }
}

/// A number of 24 significant digits is kept in single precision, one of 53 in double precision.
pub proof fn significant_digits_are_kept(count: int, exponent: nat)
    ensures
        -0x100_0000 < count < 0x100_0000 ==> is_single(count * pow2(exponent)),
        -0x20_0000_0000_0000 < count < 0x20_0000_0000_0000 ==> is_double(count * pow2(exponent)),
{
    single_has_24_digits(count * pow2(exponent));
    double_has_53_digits(count * pow2(exponent));
    if -0x100_0000 < count < 0x100_0000 {
        lemma_digits_are_kept(count, exponent, 0x100_0000);
    }
    if -0x20_0000_0000_0000 < count < 0x20_0000_0000_0000 {
        lemma_digits_are_kept(count, exponent, 0x20_0000_0000_0000);
    }
}

/// Single precision loses at most one part in `2^24`.
pub proof fn single_is_close(value: int)
    ensures
        value >= 0 ==> -value <= (single(value) - value) * 0x100_0000 <= value,
        value <= 0 ==> value <= (single(value) - value) * 0x100_0000 <= -value,
{
    single_has_24_digits(value);
    if value >= 0 {
        lemma_rounding_error(value, 0x100_0000, 1, 0x100_0000);
    } else {
        lemma_rounding_error(-value, 0x100_0000, 1, 0x100_0000);
    }
}

/// Double precision loses at most one part in `2^53`.
pub proof fn double_is_close(value: int)
    ensures
        value >= 0 ==> -value <= (double(value) - value) * 0x20_0000_0000_0000 <= value,
        value <= 0 ==> value <= (double(value) - value) * 0x20_0000_0000_0000 <= -value,
{
    double_has_53_digits(value);
    if value >= 0 {
        lemma_rounding_error(value, 0x20_0000_0000_0000, 1, 0x20_0000_0000_0000);
    } else {
        lemma_rounding_error(-value, 0x20_0000_0000_0000, 1, 0x20_0000_0000_0000);
    }
}

/// Rounding to single precision keeps the order of numbers.
pub proof fn single_keeps_the_order(low: int, high: int)
    requires
        low <= high,
    ensures
        single(low) <= single(high),
{
    single_has_24_digits(low);
    single_has_24_digits(high);
    if low >= 0 {
        lemma_rounded_monotone(low, high, 0x100_0000, 1);
    } else if high < 0 {
        lemma_rounded_monotone(-high, -low, 0x100_0000, 1);
    } else {
        lemma_rounded_is_positive(-low, 0x100_0000, 1);
        lemma_rounded_is_positive(high, 0x100_0000, 1);
    }
}

/// Rounding to double precision keeps the order of numbers.
pub proof fn double_keeps_the_order(low: int, high: int)
    requires
        low <= high,
    ensures
        double(low) <= double(high),
{
    double_has_53_digits(low);
    double_has_53_digits(high);
    if low >= 0 {
        lemma_rounded_monotone(low, high, 0x20_0000_0000_0000, 1);
    } else if high < 0 {
        lemma_rounded_monotone(-high, -low, 0x20_0000_0000_0000, 1);
    } else {
        lemma_rounded_is_positive(-low, 0x20_0000_0000_0000, 1);
        lemma_rounded_is_positive(high, 0x20_0000_0000_0000, 1);
    }
}

fn round(magnitude: u128, digits: u128) -> (result: u128)
    requires
        computable(magnitude as int),
        digits == SINGLE_LIMIT || digits == DOUBLE_LIMIT,
    ensures
        result == rounded(magnitude as int, digits as int, 1),
        result <= 2 * magnitude,
{
    let mut limit: u128 = digits;
    let mut unit: u128 = 1;
    proof {
        reveal_with_fuel(rounded, 2);
    }
    while magnitude >= limit
        invariant
            computable(magnitude as int),
            digits == SINGLE_LIMIT || digits == DOUBLE_LIMIT,
            0 < unit <= limit,
            limit <= 2 * magnitude || limit == digits,
            rounded(magnitude as int, digits as int, 1) == rounded(
                magnitude as int,
                limit as int,
                unit as int,
            ),
        decreases 2 * magnitude - limit,
    {
        proof {
            reveal_with_fuel(rounded, 2);
        }
        limit = 2 * limit;
        unit = 2 * unit;
    }
    let rest: u128 = magnitude % unit;
    let up: bool = 2 * rest > unit || (2 * rest == unit && (magnitude / unit) % 2 == 1);
    proof {
        lemma_rounding_error(magnitude as int, digits as int, 1, digits as int);
        lemma_fundamental_div_mod(magnitude as int, unit as int);
        assert(rest <= magnitude);
    }
    if up {
        magnitude - rest + unit
    } else {
        magnitude - rest
    }
}

/// Rounds to single precision.
pub fn to_single(value: i128) -> (result: i128)
    requires
        computable(value as int),
    ensures
        result == single(value as int),
        value >= 0 ==> 0 <= result <= 2 * value,
        value <= 0 ==> 2 * value <= result <= 0,
{
    proof {
        single_has_24_digits(value as int);
    }
    if value >= 0 {
        round(value as u128, SINGLE_LIMIT) as i128
    } else {
        -(round((-value) as u128, SINGLE_LIMIT) as i128)
    }
}

/// Rounds to double precision.
pub fn to_double(value: i128) -> (result: i128)
    requires
        computable(value as int),
    ensures
        result == double(value as int),
        value >= 0 ==> 0 <= result <= 2 * value,
        value <= 0 ==> 2 * value <= result <= 0,
{
    proof {
        double_has_53_digits(value as int);
    }
    if value >= 0 {
        round(value as u128, DOUBLE_LIMIT) as i128
    } else {
        -(round((-value) as u128, DOUBLE_LIMIT) as i128)
    }
}

/// Rounding to multiples of a unit gives a multiple of it, no further away than half a unit; half
/// way between two, it gives the even one.
pub proof fn nearest_is_the_nearest_multiple(magnitude: int, unit: int)
    requires
        magnitude >= 0,
        unit > 0,
    ensures
        nearest(magnitude, unit) % unit == 0,
        -unit <= 2 * (nearest(magnitude, unit) - magnitude) <= unit,
        2 * (nearest(magnitude, unit) - magnitude) == unit || 2 * (nearest(magnitude, unit)
            - magnitude) == -unit ==> (nearest(magnitude, unit) / unit) % 2 == 0,
{
    let quotient = magnitude / unit;
    lemma_fundamental_div_mod(magnitude, unit);
    assert(quotient * unit == unit * quotient) by (nonlinear_arith);
    assert((quotient + 1) * unit == unit * quotient + unit) by (nonlinear_arith);
    lemma_mod_multiples_basic(quotient, unit);
    lemma_mod_multiples_basic(quotient + 1, unit);
    lemma_div_by_multiple(quotient, unit);
    lemma_div_by_multiple(quotient + 1, unit);
}

proof fn lemma_rounded_twice(magnitude: int, limit: int, unit: int)
    requires
        magnitude >= 0,
        unit > 0,
        limit > 0,
        limit % (2 * unit) == 0,
    ensures
        rounded(rounded(magnitude, limit, unit), limit, unit) == rounded(magnitude, limit, unit),
    decreases 2 * magnitude - limit,
{
    reveal_with_fuel(rounded, 3);
    lemma_fundamental_div_mod(limit, 2 * unit);
    let half = limit / (2 * unit);
    assert(limit == (2 * half) * unit && 2 * limit == half * (2 * (2 * unit))) by (nonlinear_arith)
        requires
            limit == (2 * unit) * half + 0,
    ;
    lemma_mod_multiples_basic(2 * half, unit);
    lemma_mod_multiples_basic(half, 2 * (2 * unit));
    let once = rounded(magnitude, limit, unit);
    assert(nearest(limit, unit) == limit);
    assert(nearest(limit, 2 * unit) == limit);
    if magnitude < limit {
        lemma_nearest_monotone(magnitude, limit, unit);
        nearest_is_the_nearest_multiple(magnitude, unit);
        lemma_rounded_is_positive(magnitude, limit, unit);
        if once < limit {
            assert(nearest(once, unit) == once);
        } else {
            assert(rounded(limit, 2 * limit, 2 * unit) == nearest(limit, 2 * unit));
        }
    } else {
        lemma_rounded_twice(magnitude, 2 * limit, 2 * unit);
        lemma_rounded_monotone(limit, magnitude, 2 * limit, 2 * unit);
        assert(rounded(limit, 2 * limit, 2 * unit) == nearest(limit, 2 * unit));
    }
}

/// What was rounded stays as it is when it is rounded again.
pub proof fn rounding_is_idempotent(value: int)
    ensures
        is_single(single(value)),
        is_double(double(value)),
{
    let magnitude = if value >= 0 {
        value
    } else {
        -value
    };
    single_has_24_digits(value);
    double_has_53_digits(value);
    single_has_24_digits(single(value));
    double_has_53_digits(double(value));
    lemma_rounded_twice(magnitude, 0x100_0000, 1);
    lemma_rounded_twice(magnitude, 0x20_0000_0000_0000, 1);
    lemma_rounded_is_positive(magnitude, 0x100_0000, 1);
    lemma_rounded_is_positive(magnitude, 0x20_0000_0000_0000, 1);
}

} // verus!
