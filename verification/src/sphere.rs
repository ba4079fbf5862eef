//! Root selection for the ray/sphere intersection. A hit solves the
//! quadratic `|o + t*d - c|^2 = r^2`; of its two roots `t1 <= t2` the hit is
//! the smallest non-negative one, and the ray misses when the discriminant is
//! negative or both roots lie behind the origin.

use vstd::prelude::*;

verus! {

/// Which root of the sphere quadratic counts as the hit.
#[derive(Clone, Copy, Debug, PartialEq, Eq, Structural)]
pub enum SphereHit {
    /// No hit: the discriminant is negative, or both roots are negative.
    Miss,
    /// The near root `t1` is the hit.
    Near,
    /// The near root lies behind the ray's origin: the far root `t2` is the
    /// hit (the origin is inside the sphere).
    Far,
}

/// Which root is the hit, given the signs the intersection routine computed:
/// `delta_nonneg` says the discriminant is non-negative (the ray's line
/// meets the sphere), and `t1_nonneg`, `t2_nonneg` give the signs of the
/// near and far roots. The hit is the smallest non-negative root, and a ray
/// whose roots are both negative misses.
pub open spec fn sphere_hit_spec(delta_nonneg: bool, t1_nonneg: bool, t2_nonneg: bool)
    -> SphereHit {
    if !delta_nonneg || !t2_nonneg {
        SphereHit::Miss
    } else if t1_nonneg {
        SphereHit::Near
    } else {
        SphereHit::Far
    }
}

/// Root of the sphere quadratic that counts as the hit.
pub fn sphere_hit(delta_nonneg: bool, t1_nonneg: bool, t2_nonneg: bool) -> (r: SphereHit)
    ensures
        r == sphere_hit_spec(delta_nonneg, t1_nonneg, t2_nonneg),
{
    if !delta_nonneg || !t2_nonneg {
        SphereHit::Miss
    } else if t1_nonneg {
        SphereHit::Near
    } else {
        SphereHit::Far
    }
}

} // verus!
