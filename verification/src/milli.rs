//! Fixed-point scalar arithmetic in milli-units (thousandths of a world
//! unit), with rounded division and frame-rate-independent easing on a
//! single axis.

use vstd::prelude::*;

verus! {

use vstd::arithmetic::div_mod::{
    lemma_basic_div, lemma_div_is_ordered, lemma_div_multiples_vanish_fancy, lemma_div_pos_is_pos,
    lemma_multiply_divide_lt,
};
use vstd::arithmetic::mul::{
    lemma_mul_inequality, lemma_mul_is_associative, lemma_mul_is_commutative,
    lemma_mul_is_distributive_add, lemma_mul_is_distributive_sub, lemma_mul_upper_bound,
};
use vstd::math::abs;

/// One world unit expressed in milli-units.
pub const MILLI_ONE: i64 = 1000;

/// Largest magnitude accepted for world-space configuration input: player
/// positions, camera offsets and height bounds, speeds.
pub const COORD_LIMIT: i64 = 1_000_000_000;

/// Largest magnitude the camera placement values (live position, desired
/// position, publication of either) may reach.
pub const PLACEMENT_LIMIT: i64 = 10_000_000_000_000;

/// Largest magnitude `mul_div_round` accepts for the operand that gets
/// scaled; wide enough for any difference of two placement values.
pub const SCALED_LIMIT: i64 = 4_000_000_000_000_000;

/// Cap on every interpolation factor `num / den` handled here; keeps each
/// scaled result inside `i64`.  A factor this large already moves a value a
/// thousandfold past its target in one step.
pub const RATE_LIMIT: i64 = 1000;

/// Largest denominator accepted for an interpolation factor.
pub const DEN_LIMIT: i64 = 1_000_000_000_000;

/// Division of `n` by `d` (for `d >= 1`) rounded to the nearest integer,
/// halves away from zero.
pub open spec fn rdiv(n: int, d: int) -> int
    recommends
        d >= 1,
{
    if n >= 0 {
        (2 * n + d) / (2 * d)
    } else {
        -((2 * (-n) + d) / (2 * d))
    }
}

/// Rounded division of zero is zero.
pub proof fn lemma_rdiv_zero(d: int)
    requires
        d >= 1,
    ensures
        rdiv(0, d) == 0,
{
    lemma_basic_div(d, 2 * d);
}

/// Rounded division is odd in its numerator.
pub proof fn lemma_rdiv_neg(n: int, d: int)
    requires
        d >= 1,
    ensures
        rdiv(-n, d) == -rdiv(n, d),
{
    if n == 0 {
        lemma_rdiv_zero(d);
    }
}

/// Rounded division of an exact multiple recovers the factor.
pub proof fn lemma_rdiv_exact(k: int, d: int)
    requires
        d >= 1,
    ensures
        rdiv(k * d, d) == k,
{
    if k >= 0 {
        assert(2 * (k * d) + d == (2 * d) * k + d) by {
            lemma_mul_is_associative(2, k, d);
            lemma_mul_is_commutative(k, d);
            lemma_mul_is_associative(2, d, k);
        }
        assert(k * d >= 0) by {
            lemma_mul_inequality(0, k, d);
            lemma_mul_is_commutative(k, d);
        }
        lemma_div_multiples_vanish_fancy(k, d, 2 * d);
    } else {
        assert(2 * (-(k * d)) + d == (2 * d) * (-k) + d) by (nonlinear_arith);
        assert(k * d < 0) by {
            lemma_mul_inequality(k, -1, d);
            lemma_mul_is_commutative(k, d);
        }
        lemma_div_multiples_vanish_fancy(-k, d, 2 * d);
    }
}

/// A nonnegative numerator bounded by `b * d` rounds to at most `b`.
pub proof fn lemma_rdiv_nonneg_le(x: int, d: int, b: int)
    requires
        d >= 1,
        0 <= x,
        0 <= b,
        x <= b * d,
    ensures
        0 <= rdiv(x, d) <= b,
{
    lemma_div_pos_is_pos(2 * x + d, 2 * d);
    assert(2 * x + d <= (2 * d) * b + d) by {
        lemma_mul_inequality(x, b * d, 2);
        lemma_mul_is_commutative(x, 2);
        lemma_mul_is_commutative(b * d, 2);
        lemma_mul_is_associative(2, b, d);
        lemma_mul_is_commutative(b, d);
        lemma_mul_is_associative(2, d, b);
    }
    lemma_div_multiples_vanish_fancy(b, d, 2 * d);
    lemma_div_is_ordered(2 * x + d, (2 * d) * b + d, 2 * d);
}

/// Magnitude bound in both directions: `|x| <= b * d` keeps the rounded
/// quotient within `[-b, b]`.
pub proof fn lemma_rdiv_bounded(x: int, d: int, b: int)
    requires
        d >= 1,
        0 <= b,
        -(b * d) <= x <= b * d,
    ensures
        -b <= rdiv(x, d) <= b,
{
    if x >= 0 {
        lemma_rdiv_nonneg_le(x, d, b);
    } else {
        lemma_rdiv_nonneg_le(-x, d, b);
        lemma_rdiv_neg(-x, d);
    }
}

/// An interpolation factor below one never carries a positive difference
/// past itself: the rounded step stays within `[0, diff]`.
pub proof fn lemma_ease_step_bounds(diff: int, num: int, den: int)
    requires
        1 <= num,
        num < den,
        1 <= diff,
    ensures
        0 <= rdiv(diff * num, den) <= diff,
{
    assert(diff * num >= 0) by {
        lemma_mul_inequality(0, diff, num);
        lemma_mul_is_commutative(diff, num);
    }
    assert(diff * num <= diff * den - diff) by {
        lemma_mul_inequality(num, den - 1, diff);
        lemma_mul_is_commutative(num, diff);
        lemma_mul_is_commutative(den - 1, diff);
        lemma_mul_is_distributive_sub(diff, den, 1);
    }
    assert(2 * (diff * num) + den < (2 * den) * (diff + 1)) by {
        lemma_mul_inequality(diff * num, diff * den - diff, 2);
        lemma_mul_is_commutative(diff * num, 2);
        lemma_mul_is_commutative(diff * den - diff, 2);
        lemma_mul_is_distributive_sub(2, diff * den, diff);
        lemma_mul_is_associative(2, diff, den);
        lemma_mul_is_distributive_add(2 * den, diff, 1);
        lemma_mul_is_commutative(2 * den, diff);
        lemma_mul_is_associative(2, den, diff);
        lemma_mul_is_commutative(den, diff);
        lemma_mul_is_associative(2, diff, den);
    }
    lemma_multiply_divide_lt(2 * (diff * num) + den, 2 * den, diff + 1);
    lemma_div_pos_is_pos(2 * (diff * num) + den, 2 * den);
}

/// Product magnitudes and signs, packaged for `mul_div_round`.
pub proof fn lemma_mul_abs_sign(a: int, b: int)
    by (nonlinear_arith)
    ensures
        abs(a) * abs(b) == abs(a * b),
        (a >= 0 && b >= 0) ==> a * b >= 0,
        (a <= 0 && b <= 0) ==> a * b >= 0,
        (a >= 0 && b <= 0) ==> a * b <= 0,
        (a <= 0 && b >= 0) ==> a * b <= 0,
{
}

/// Multiply `a` by the factor `num / den`, rounding the result to the
/// nearest integer with halves away from zero.
pub fn mul_div_round(a: i64, num: i64, den: i64) -> (r: i64)
    requires
        1 <= den <= DEN_LIMIT,
        -SCALED_LIMIT <= a <= SCALED_LIMIT,
        -(RATE_LIMIT * den) <= num <= RATE_LIMIT * den,
    ensures
        r == rdiv(a * num, den as int),
        -(RATE_LIMIT * abs(a as int)) <= r <= RATE_LIMIT * abs(a as int),
{
    let a_mag: u128 = (if a < 0 {
        -a
    } else {
        a
    }) as u128;
    let n_mag: u128 = (if num < 0 {
        -num
    } else {
        num
    }) as u128;
    let d: u128 = den as u128;
    proof {
        lemma_mul_abs_sign(a as int, num as int);
        lemma_mul_upper_bound(a_mag as int, SCALED_LIMIT as int, n_mag as int, RATE_LIMIT * den);
    }
    let x: u128 = a_mag * n_mag;
    let q: u128 = (2 * x + d) / (2 * d);
    proof {
        assert(a_mag * n_mag <= (RATE_LIMIT * a_mag) * den) by {
            lemma_mul_upper_bound(a_mag as int, a_mag as int, n_mag as int, RATE_LIMIT * den);
            lemma_mul_is_associative(a_mag as int, RATE_LIMIT as int, den as int);
            lemma_mul_is_commutative(a_mag as int, RATE_LIMIT as int);
            lemma_mul_is_associative(RATE_LIMIT as int, a_mag as int, den as int);
        }
        lemma_rdiv_nonneg_le(x as int, den as int, RATE_LIMIT * a_mag);
    }
    let q64: i64 = q as i64;
    if (a < 0) != (num < 0) {
        proof {
            lemma_rdiv_neg(a_mag * n_mag, den as int);
            if x == 0 {
                lemma_rdiv_zero(den as int);
            }
        }
        -q64
    } else {
        q64
    }
}

/// One easing step on a single axis: move `pos` toward `target` by the
/// fraction `num / den` of the remaining difference, rounded to the nearest
/// milli-unit.  Whenever the factor is positive and rounding alone would
/// not move at all, the position still advances by one milli-unit, so a
/// positive factor always makes progress; a zero factor leaves the position
/// unchanged.  A factor above one overshoots past the target, as plain
/// linear extrapolation does.
pub open spec fn ease_axis_spec(pos: int, target: int, num: int, den: int) -> int
    recommends
        den >= 1,
        num >= 0,
{
    let diff = target - pos;
    if diff == 0 || num == 0 {
        pos
    } else {
        let raw = rdiv(diff * num, den);
        if raw == 0 {
            if diff > 0 {
                pos + 1
            } else {
                pos - 1
            }
        } else {
            pos + raw
        }
    }
}

/// Easing leaves a reached target in place.
pub proof fn lemma_ease_axis_fixpoint(pos: int, num: int, den: int)
    ensures
        ease_axis_spec(pos, pos, num, den) == pos,
{
}

/// A factor of at most one keeps the eased value between the old position
/// and the target.
pub proof fn lemma_ease_axis_within(pos: int, target: int, num: int, den: int)
    requires
        1 <= den,
        0 <= num <= den,
    ensures
        pos <= target ==> pos <= ease_axis_spec(pos, target, num, den) <= target,
        target <= pos ==> target <= ease_axis_spec(pos, target, num, den) <= pos,
{
    let diff = target - pos;
    if diff != 0 && num != 0 {
        if diff > 0 {
            if num < den {
                lemma_ease_step_bounds(diff, num, den);
            } else {
                lemma_rdiv_exact(diff, den);
                lemma_mul_is_commutative(diff, den);
            }
        } else {
            assert(diff * num == -((-diff) * num)) by {
                lemma_mul_is_distributive_sub(num, 0, -diff);
                lemma_mul_is_commutative(num, diff);
                lemma_mul_is_commutative(num, -diff);
            }
            lemma_rdiv_neg((-diff) * num, den);
            if num < den {
                lemma_ease_step_bounds(-diff, num, den);
            } else {
                lemma_rdiv_exact(-diff, den);
                lemma_mul_is_commutative(-diff, den);
            }
        }
    }
}

/// A factor strictly between zero and one brings the value strictly closer
/// to the target whenever it is not there yet, and never past it.
pub proof fn lemma_ease_axis_progress(pos: int, target: int, num: int, den: int)
    requires
        1 <= num,
        num < den,
        pos != target,
    ensures
        abs(target - ease_axis_spec(pos, target, num, den)) < abs(target - pos),
        pos < target ==> pos < ease_axis_spec(pos, target, num, den) <= target,
        target < pos ==> target <= ease_axis_spec(pos, target, num, den) < pos,
{
    let diff = target - pos;
    if diff > 0 {
        lemma_ease_step_bounds(diff, num, den);
    } else {
        assert(diff * num == -((-diff) * num)) by {
            lemma_mul_is_distributive_sub(num, 0, -diff);
            lemma_mul_is_commutative(num, diff);
            lemma_mul_is_commutative(num, -diff);
        }
        lemma_rdiv_neg((-diff) * num, den);
        lemma_ease_step_bounds(-diff, num, den);
    }
}

/// One easing step on a single axis, executable form.
pub fn ease_axis(pos: i64, target: i64, num: i64, den: i64) -> (r: i64)
    requires
        1 <= den <= DEN_LIMIT,
        0 <= num <= RATE_LIMIT * den,
        -SCALED_LIMIT / 2 <= pos <= SCALED_LIMIT / 2,
        -SCALED_LIMIT / 2 <= target <= SCALED_LIMIT / 2,
    ensures
        r == ease_axis_spec(pos as int, target as int, num as int, den as int),
{
    let diff: i64 = target - pos;
    if diff == 0 || num == 0 {
        pos
    } else {
        let raw: i64 = mul_div_round(diff, num, den);
        let step: i64 = if raw == 0 {
            if diff > 0 {
                1
            } else {
                -1
            }
        } else {
            raw
        };
        pos + step
    }
}

} // verus!
