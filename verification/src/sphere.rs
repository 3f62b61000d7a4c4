//! Spheres and the two queries the marcher makes of them.

use vstd::prelude::*;

use crate::fixed::{fx_sub, spec_sub};
use crate::vector::{spec_norm, spec_vsub, Vector};

verus! {

/// A sphere; the radius is never negative.
#[derive(Clone, Copy, Debug, PartialEq, Eq, Structural)]
pub struct Sphere {
    pub center: Vector,
    pub radius: i64,
}

impl Sphere {
    pub open spec fn wf(&self) -> bool {
        self.radius >= 0
    }

    pub fn new(center: Vector, radius: i64) -> (r: Sphere)
        requires
            radius >= 0,
        ensures
            r == (Sphere { center, radius }),
            r.wf(),
    {
        Sphere { center, radius }
    }

    /// Distance from `p` to the surface, negative inside.
    pub open spec fn spec_signed_distance(&self, p: Vector) -> i64 {
        spec_sub(spec_norm(spec_vsub(p, self.center)), self.radius)
    }

    pub fn signed_distance(&self, p: Vector) -> (r: i64)
        ensures
            r == self.spec_signed_distance(p),
    {
        fx_sub(p.minus(&self.center).norm(), self.radius)
    }
}

/// A surface-crossing test between two consecutive sample points.
pub trait Hit {
    spec fn spec_hit(&self, a: Vector, b: Vector) -> bool;

    /// True when the step from `a` to `b` entered the surface: `b` is
    /// inside-or-on while `a` was outside-or-on.
    fn hit(&self, a: Vector, b: Vector) -> (r: bool)
        ensures
            r == self.spec_hit(a, b),
    ;
}

impl Hit for Sphere {
    open spec fn spec_hit(&self, a: Vector, b: Vector) -> bool {
        self.spec_signed_distance(b) <= 0 && self.spec_signed_distance(a) >= 0
    }

    fn hit(&self, a: Vector, b: Vector) -> (r: bool) {
        self.signed_distance(b) <= 0 && self.signed_distance(a) >= 0
    }
}

} // verus!
