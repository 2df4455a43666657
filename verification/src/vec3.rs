//! Three-component vectors in milli-units, and per-axis easing of a vector
//! toward a target with its convergence laws.

use vstd::prelude::*;

verus! {

use crate::milli::{
    ease_axis, ease_axis_spec, lemma_ease_axis_fixpoint, lemma_ease_axis_progress,
    lemma_ease_axis_within, DEN_LIMIT, RATE_LIMIT, SCALED_LIMIT,
};
use vstd::math::abs;

/// A 3D vector whose components are milli-units (thousandths of a world
/// unit).  `x` is lateral, `y` is vertical (world up), `z` is longitudinal.
#[derive(Clone, Copy, Debug, PartialEq, Eq, Structural)]
pub struct Vec3Milli {
    pub x: i64,
    pub y: i64,
    pub z: i64,
}

impl Vec3Milli {
    /// The zero vector.
    pub fn zero() -> (v: Vec3Milli)
        ensures
            v == (Vec3Milli { x: 0, y: 0, z: 0 }),
    {
        Vec3Milli { x: 0, y: 0, z: 0 }
    }

    /// Every component has magnitude at most `limit`.
    pub open spec fn in_limit(self, limit: int) -> bool {
        &&& -limit <= self.x <= limit
        &&& -limit <= self.y <= limit
        &&& -limit <= self.z <= limit
    }
}

/// Distance between two vectors, measured as the sum of the per-axis
/// magnitudes (the taxicab distance).  It is zero exactly when the vectors
/// are equal, and any per-axis shrinking that shrinks it also shrinks the
/// straight-line distance.
pub open spec fn l1_dist(a: Vec3Milli, b: Vec3Milli) -> int {
    abs(a.x - b.x) + abs(a.y - b.y) + abs(a.z - b.z) as int
}

/// Easing a whole vector: every axis moves toward its target by the
/// fraction `num / den` of the remaining difference, as `ease_axis_spec`
/// says.
pub open spec fn ease_vec_spec(pos: Vec3Milli, target: Vec3Milli, num: int, den: int) -> Vec3Milli
    recommends
        den >= 1,
        0 <= num <= RATE_LIMIT * den,
        pos.in_limit(SCALED_LIMIT as int / 2),
        target.in_limit(SCALED_LIMIT as int / 2),
{
    Vec3Milli {
        x: ease_axis_spec(pos.x as int, target.x as int, num, den) as i64,
        y: ease_axis_spec(pos.y as int, target.y as int, num, den) as i64,
        z: ease_axis_spec(pos.z as int, target.z as int, num, den) as i64,
    }
}

/// With a factor of at most one, each eased axis lies between its old
/// position and its target, so the cast in `ease_vec_spec` loses nothing
/// and the eased vector stays inside every limit that holds both ends.
pub proof fn lemma_ease_vec_within(pos: Vec3Milli, target: Vec3Milli, num: int, den: int, limit: int)
    requires
        1 <= den,
        0 <= num <= den,
        pos.in_limit(limit),
        target.in_limit(limit),
        0 <= limit <= SCALED_LIMIT as int / 2,
    ensures
        ease_vec_spec(pos, target, num, den).in_limit(limit),
        ease_vec_spec(pos, target, num, den).x as int == ease_axis_spec(
            pos.x as int,
            target.x as int,
            num,
            den,
        ),
        ease_vec_spec(pos, target, num, den).y as int == ease_axis_spec(
            pos.y as int,
            target.y as int,
            num,
            den,
        ),
        ease_vec_spec(pos, target, num, den).z as int == ease_axis_spec(
            pos.z as int,
            target.z as int,
            num,
            den,
        ),
{
    lemma_ease_axis_within(pos.x as int, target.x as int, num, den);
    lemma_ease_axis_within(pos.y as int, target.y as int, num, den);
    lemma_ease_axis_within(pos.z as int, target.z as int, num, den);
}

/// Placement convergence, one step: with a factor strictly between zero
/// and one, easing strictly decreases the distance to a target that is not
/// yet reached, and it never moves any axis past its target.
pub proof fn lemma_ease_vec_strictly_approaches(
    pos: Vec3Milli,
    target: Vec3Milli,
    num: int,
    den: int,
)
    requires
        1 <= num,
        num < den,
        pos.in_limit(SCALED_LIMIT as int / 2),
        target.in_limit(SCALED_LIMIT as int / 2),
        pos != target,
    ensures
        l1_dist(ease_vec_spec(pos, target, num, den), target) < l1_dist(pos, target),
{
    lemma_ease_vec_within(pos, target, num, den, SCALED_LIMIT as int / 2);
    if pos.x != target.x {
        lemma_ease_axis_progress(pos.x as int, target.x as int, num, den);
    } else {
        lemma_ease_axis_fixpoint(pos.x as int, num, den);
    }
    if pos.y != target.y {
        lemma_ease_axis_progress(pos.y as int, target.y as int, num, den);
    } else {
        lemma_ease_axis_fixpoint(pos.y as int, num, den);
    }
    if pos.z != target.z {
        lemma_ease_axis_progress(pos.z as int, target.z as int, num, den);
    } else {
        lemma_ease_axis_fixpoint(pos.z as int, num, den);
    }
}

/// The vector position after `n` easing steps toward a fixed target.
pub open spec fn ease_vec_iter(
    pos: Vec3Milli,
    target: Vec3Milli,
    num: int,
    den: int,
    n: nat,
) -> Vec3Milli
    decreases n,
{
    if n == 0 {
        pos
    } else {
        ease_vec_iter(ease_vec_spec(pos, target, num, den), target, num, den, (n - 1) as nat)
    }
}

/// Placement convergence, in the limit: with a factor strictly between
/// zero and one, repeated easing reaches the target exactly, after at most
/// as many ticks as the initial distance in milli-units.
pub proof fn lemma_ease_vec_converges(
    pos: Vec3Milli,
    target: Vec3Milli,
    num: int,
    den: int,
    n: nat,
)
    requires
        1 <= num,
        num < den,
        pos.in_limit(SCALED_LIMIT as int / 2),
        target.in_limit(SCALED_LIMIT as int / 2),
        n >= l1_dist(pos, target),
    ensures
        ease_vec_iter(pos, target, num, den, n) == target,
    decreases n,
{
    if pos == target {
        if n > 0 {
            lemma_ease_axis_fixpoint(target.x as int, num, den);
            lemma_ease_axis_fixpoint(target.y as int, num, den);
            lemma_ease_axis_fixpoint(target.z as int, num, den);
            assert(ease_vec_spec(pos, target, num, den) == pos);
            lemma_ease_vec_converges(pos, target, num, den, (n - 1) as nat);
        }
    } else {
        lemma_ease_vec_strictly_approaches(pos, target, num, den);
        lemma_ease_vec_within(pos, target, num, den, SCALED_LIMIT as int / 2);
        lemma_ease_vec_converges(
            ease_vec_spec(pos, target, num, den),
            target,
            num,
            den,
            (n - 1) as nat,
        );
    }
}

/// One easing step on a whole vector, executable form.
pub fn ease_vec(pos: &Vec3Milli, target: &Vec3Milli, num: i64, den: i64) -> (r: Vec3Milli)
    requires
        1 <= den <= DEN_LIMIT,
        0 <= num <= RATE_LIMIT * den,
        pos.in_limit(SCALED_LIMIT as int / 2),
        target.in_limit(SCALED_LIMIT as int / 2),
    ensures
        r == ease_vec_spec(*pos, *target, num as int, den as int),
{
    Vec3Milli {
        x: ease_axis(pos.x, target.x, num, den),
        y: ease_axis(pos.y, target.y, num, den),
        z: ease_axis(pos.z, target.z, num, den),
    }
}

} // verus!
