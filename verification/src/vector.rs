//! Three-component vectors over fixed-point scalars, and rays.

use vstd::prelude::*;

use crate::fixed::{
    fx_add, fx_div, fx_mul, fx_neg, fx_sqrt, fx_sub, spec_add, spec_div, spec_mul, spec_neg,
    spec_sqrt, spec_sub, tdiv, FX_ONE,
};
use crate::rng::ScenePcg;

verus! {

/// A point or direction; each component is a fixed-point scalar.
#[derive(Clone, Copy, Debug, PartialEq, Eq, Structural)]
pub struct Vector {
    pub x: i64,
    pub y: i64,
    pub z: i64,
}

pub open spec fn spec_vnew(x: i64, y: i64, z: i64) -> Vector {
    Vector { x, y, z }
}

pub open spec fn spec_vzero() -> Vector {
    Vector { x: 0, y: 0, z: 0 }
}

pub open spec fn spec_vadd(a: Vector, b: Vector) -> Vector {
    Vector { x: spec_add(a.x, b.x), y: spec_add(a.y, b.y), z: spec_add(a.z, b.z) }
}

pub open spec fn spec_vsub(a: Vector, b: Vector) -> Vector {
    Vector { x: spec_sub(a.x, b.x), y: spec_sub(a.y, b.y), z: spec_sub(a.z, b.z) }
}

pub open spec fn spec_vneg(a: Vector) -> Vector {
    Vector { x: spec_neg(a.x), y: spec_neg(a.y), z: spec_neg(a.z) }
}

pub open spec fn spec_vscale(a: Vector, k: i64) -> Vector {
    Vector { x: spec_mul(a.x, k), y: spec_mul(a.y, k), z: spec_mul(a.z, k) }
}

pub open spec fn spec_voffset(a: Vector, k: i64) -> Vector {
    Vector { x: spec_add(a.x, k), y: spec_add(a.y, k), z: spec_add(a.z, k) }
}

/// Inner product: the three products are each truncated, then summed with
/// saturation, in the order the components are stored.
pub open spec fn spec_dot(a: Vector, b: Vector) -> i64 {
    spec_add(spec_add(spec_mul(a.x, b.x), spec_mul(a.y, b.y)), spec_mul(a.z, b.z))
}

pub open spec fn spec_norm_sq(a: Vector) -> i64 {
    spec_dot(a, a)
}

pub open spec fn spec_norm(a: Vector) -> i64 {
    spec_sqrt(spec_norm_sq(a))
}

pub open spec fn spec_normalized(a: Vector) -> Vector {
    let n = spec_norm(a);
    Vector { x: spec_div(a.x, n), y: spec_div(a.y, n), z: spec_div(a.z, n) }
}

/// The fixed-point power with a whole exponent.
pub open spec fn spec_fx_pow(a: i64, n: nat) -> i64
    decreases n,
{
    if n == 0 {
        FX_ONE
    } else {
        spec_mul(a, spec_fx_pow(a, (n - 1) as nat))
    }
}

/// One component of the right-handed cross product.
pub open spec fn spec_cross_term(p: i64, q: i64, r: i64, s: i64) -> i64 {
    spec_sub(spec_mul(p, q), spec_mul(r, s))
}

pub open spec fn spec_cross(a: Vector, b: Vector) -> Vector {
    Vector {
        x: spec_cross_term(a.y, b.z, b.y, a.z),
        y: spec_cross_term(a.z, b.x, b.z, a.x),
        z: spec_cross_term(a.x, b.y, b.x, a.y),
    }
}

/// A square truncated toward zero is never negative.
pub proof fn lemma_mul_self_nonneg(a: i64)
    ensures
        spec_mul(a, a) >= 0,
{
    assert(a * a >= 0) by (nonlinear_arith);
    assert(tdiv(a * a, FX_ONE as int) >= 0);
}

/// The squared norm is never negative.
pub proof fn lemma_norm_sq_nonneg(a: Vector)
    ensures
        spec_norm_sq(a) >= 0,
{
    lemma_mul_self_nonneg(a.x);
    lemma_mul_self_nonneg(a.y);
    lemma_mul_self_nonneg(a.z);
}

/// The norm is never negative.
pub proof fn lemma_norm_nonneg(a: Vector)
    ensures
        spec_norm(a) >= 0,
{
    lemma_norm_sq_nonneg(a);
    crate::fixed::lemma_spec_sqrt_bounds(spec_norm_sq(a));
}

impl Vector {
    pub fn new(x: i64, y: i64, z: i64) -> (r: Vector)
        ensures
            r == spec_vnew(x, y, z),
    {
        Vector { x, y, z }
    }

    pub fn x(&self) -> (r: i64)
        ensures
            r == self.x,
    {
        self.x
    }

    pub fn y(&self) -> (r: i64)
        ensures
            r == self.y,
    {
        self.y
    }

    pub fn z(&self) -> (r: i64)
        ensures
            r == self.z,
    {
        self.z
    }

    pub fn plus(&self, rhs: &Vector) -> (r: Vector)
        ensures
            r == spec_vadd(*self, *rhs),
    {
        Vector { x: fx_add(self.x, rhs.x), y: fx_add(self.y, rhs.y), z: fx_add(self.z, rhs.z) }
    }

    pub fn minus(&self, rhs: &Vector) -> (r: Vector)
        ensures
            r == spec_vsub(*self, *rhs),
    {
        Vector { x: fx_sub(self.x, rhs.x), y: fx_sub(self.y, rhs.y), z: fx_sub(self.z, rhs.z) }
    }

    pub fn negated(&self) -> (r: Vector)
        ensures
            r == spec_vneg(*self),
    {
        Vector { x: fx_neg(self.x), y: fx_neg(self.y), z: fx_neg(self.z) }
    }

    /// Scale every component by the fixed-point factor `k`.
    pub fn scale(&self, k: i64) -> (r: Vector)
        ensures
            r == spec_vscale(*self, k),
    {
        Vector { x: fx_mul(self.x, k), y: fx_mul(self.y, k), z: fx_mul(self.z, k) }
    }

    /// Add the fixed-point scalar `k` to every component.
    pub fn offset(&self, k: i64) -> (r: Vector)
        ensures
            r == spec_voffset(*self, k),
    {
        Vector { x: fx_add(self.x, k), y: fx_add(self.y, k), z: fx_add(self.z, k) }
    }

    pub fn dot(&self, other: &Vector) -> (r: i64)
        ensures
            r == spec_dot(*self, *other),
    {
        fx_add(fx_add(fx_mul(self.x, other.x), fx_mul(self.y, other.y)), fx_mul(self.z, other.z))
    }

    pub fn norm_squared(&self) -> (r: i64)
        ensures
            r == spec_norm_sq(*self),
            r >= 0,
    {
        proof {
            lemma_norm_sq_nonneg(*self);
        }
        self.dot(self)
    }

    pub fn norm(&self) -> (r: i64)
        ensures
            r == spec_norm(*self),
            r >= 0,
    {
        proof {
            lemma_norm_sq_nonneg(*self);
            lemma_norm_nonneg(*self);
        }
        fx_sqrt(self.norm_squared())
    }

    /// Divide by the own norm; the zero vector is excluded by the caller.
    pub fn normalized(&self) -> (r: Vector)
        requires
            spec_norm(*self) > 0,
        ensures
            r == spec_normalized(*self),
    {
        let n = self.norm();
        Vector { x: fx_div(self.x, n), y: fx_div(self.y, n), z: fx_div(self.z, n) }
    }

    pub fn cross(&self, other: &Vector) -> (r: Vector)
        ensures
            r == spec_cross(*self, *other),
    {
        Vector {
            x: fx_sub(fx_mul(self.y, other.z), fx_mul(other.y, self.z)),
            y: fx_sub(fx_mul(self.z, other.x), fx_mul(other.z, self.x)),
            z: fx_sub(fx_mul(self.x, other.y), fx_mul(other.x, self.y)),
        }
    }

    /// Elementwise power with a whole exponent, the form a fixed-point
    /// representation admits.
    pub fn powf(&self, n: u32) -> (r: Vector)
        ensures
            r.x == spec_fx_pow(self.x, n as nat),
            r.y == spec_fx_pow(self.y, n as nat),
            r.z == spec_fx_pow(self.z, n as nat),
    {
        let mut rx: i64 = FX_ONE;
        let mut ry: i64 = FX_ONE;
        let mut rz: i64 = FX_ONE;
        let mut i: u32 = 0;
        while i < n
            invariant
                i <= n,
                rx == spec_fx_pow(self.x, i as nat),
                ry == spec_fx_pow(self.y, i as nat),
                rz == spec_fx_pow(self.z, i as nat),
            decreases n - i,
    {
            rx = fx_mul(self.x, rx);
            ry = fx_mul(self.y, ry);
            rz = fx_mul(self.z, rz);
            i = i + 1;
        }
        Vector { x: rx, y: ry, z: rz }
    }

    /// Draw a vector inside the unit ball by rejection sampling. The draw is
    /// retried a bounded number of times; if every draw lands outside the
    /// ball, the centre is returned, so the bound below always holds.
    pub fn random_in_unit_sphere(rng: &mut ScenePcg) -> (r: Vector)
        ensures
            spec_norm_sq(r) <= FX_ONE,
            -FX_ONE <= r.x <= FX_ONE,
            -FX_ONE <= r.y <= FX_ONE,
            -FX_ONE <= r.z <= FX_ONE,
    {
        let mut tries: u32 = 64;
        while tries > 0
            decreases tries,
        {
            let v = Vector {
                x: rng.next_signed_unit(),
                y: rng.next_signed_unit(),
                z: rng.next_signed_unit(),
            };
            if v.norm_squared() <= FX_ONE {
                return v;
            }
            tries = tries - 1;
        }
        proof {
            lemma_norm_sq_nonneg(spec_vzero());
            assert(spec_norm_sq(spec_vzero()) == 0);
        }
        Vector { x: 0, y: 0, z: 0 }
    }
}

/// An origin and a direction; the marcher normalizes the direction itself.
#[derive(Clone, Copy, Debug, PartialEq, Eq, Structural)]
pub struct Ray {
    pub origin: Vector,
    pub direction: Vector,
}

impl Ray {
    pub fn new(origin: Vector, direction: Vector) -> (r: Ray)
        ensures
            r == (Ray { origin, direction }),
    {
        Ray { origin, direction }
    }
}

} // verus!
