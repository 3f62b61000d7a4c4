//! The geodesic marcher: advances a ray under the weak-field bending rule and
//! looks for absorption by the central mass or a crossing of a scene sphere.

use vstd::prelude::*;

use crate::fixed::{
    fx_abs, fx_mul, fx_neg, fx_sub, spec_abs, spec_add, spec_div, spec_mul, spec_neg, spec_sub,
    tdiv, FX_HALF, FX_NINE_TENTHS, FX_ONE, FX_THREE_HALVES, FX_TWO,
};
use crate::sphere::{Hit, Sphere};
use crate::vector::{
    spec_dot, spec_norm, spec_normalized, spec_vadd, spec_vscale, spec_vsub, spec_vzero, Ray,
    Vector,
};

verus! {

/// Colors are vectors whose components conventionally lie in `[0, 1]`;
/// nothing clamps them before output encoding.
pub type Color = Vector;

pub open spec fn spec_black() -> Color {
    spec_vzero()
}

/// Pure black, returned for absorbed rays.
pub fn black() -> (c: Color)
    ensures
        c == spec_black(),
{
    Vector::new(0, 0, 0)
}

/// A scene entity: a sphere and the color it is shaded with.
#[derive(Clone, Copy, Debug, PartialEq, Eq, Structural)]
pub struct Object {
    pub sphere: Sphere,
    pub color: Color,
}

impl Object {
    pub fn new(sphere: Sphere, color: Color) -> (r: Object)
        ensures
            r == (Object { sphere, color }),
    {
        Object { sphere, color }
    }
}

/// The integration state: position, velocity, and the remaining distance
/// budget before the scene is probed again.
#[derive(Clone, Copy, Debug, PartialEq, Eq, Structural)]
pub struct March {
    pub x: Vector,
    pub v: Vector,
    pub rest: i64,
}

/// What a probe of the scene found at a sample point.
#[derive(Clone, Copy, Debug)]
pub enum Scan {
    /// The point is inside-or-on this object, the earliest such in scene order.
    Struck(Object),
    /// No surface reached; the least signed distance seen, for the next budget.
    Clear(i64),
}

/// How one integration step ended.
#[derive(Clone, Copy, Debug)]
pub enum StepResult {
    /// The ray came within the absorption radius of the central mass.
    Absorbed,
    /// The ray crossed into an object's sphere at the carried point.
    Struck(Object, Vector),
    /// No event; marching continues from the carried state.
    Advanced(March),
}

/// How a whole march ended.
#[derive(Clone, Copy, Debug)]
pub enum Outcome {
    Absorbed,
    Struck(Object, Vector),
    Exhausted,
}

/// Which stepping strategy the marcher follows.
#[derive(Clone, Copy, Debug, PartialEq, Eq, Structural)]
pub enum Strategy {
    /// Fixed steps, an entry test of every object after each step, and the
    /// struck object's color unmodified.
    FixedStep,
    /// Distance-bounded stepping: the scene is probed only when the budget
    /// of known-clear distance is spent, and hits are checker-shaded.
    SphereTraced,
}

/// The marcher's configuration: the central mass, the step size, the
/// iteration budget, the checkerboard frequency, the sky color, and the
/// stepping strategy.
#[derive(Clone, Copy, Debug)]
pub struct Marcher {
    /// The stepping and intersection strategy.
    pub strategy: Strategy,
    /// Mass of the central body, fixed-point.
    pub mass: i64,
    /// Position of the central body.
    pub center: Vector,
    /// Proper-time step size, fixed-point.
    pub d_tau: i64,
    /// Bound on the number of integration steps.
    pub budget: u32,
    /// Frequency of the checkerboard shading, a plain count.
    pub checker_n: i64,
    /// Color returned when the budget runs out without any hit.
    pub background: Color,
}

/// Earliest object in scene order whose surface the point is inside-or-on;
/// otherwise the least signed distance, threaded through `acc`.
pub open spec fn spec_scan(objects: Seq<Object>, p: Vector, acc: i64) -> Scan
    decreases objects.len(),
{
    if objects.len() == 0 {
        Scan::Clear(acc)
    } else {
        let d = objects[0].sphere.spec_signed_distance(p);
        if d <= 0 {
            Scan::Struck(objects[0])
        } else {
            spec_scan(objects.skip(1), p, if d < acc { d } else { acc })
        }
    }
}

/// Least signed distance over all objects and the accumulator, with no early
/// exit: the probe made once at the ray origin.
pub open spec fn spec_min_sd(objects: Seq<Object>, p: Vector, acc: i64) -> i64
    decreases objects.len(),
{
    if objects.len() == 0 {
        acc
    } else {
        let d = objects[0].sphere.spec_signed_distance(p);
        spec_min_sd(objects.skip(1), p, if d < acc { d } else { acc })
    }
}

/// Earliest object in scene order whose surface the step from `a` to `b`
/// entered, if any.
pub open spec fn spec_cross_scan(objects: Seq<Object>, a: Vector, b: Vector) -> Option<Object>
    decreases objects.len(),
{
    if objects.len() == 0 {
        Option::None
    } else if objects[0].sphere.spec_hit(a, b) {
        Option::Some(objects[0])
    } else {
        spec_cross_scan(objects.skip(1), a, b)
    }
}

/// The first object whose surface the step from `a` to `b` entered.
pub fn cross_scan(objects: &Vec<Object>, a: Vector, b: Vector) -> (r: Option<Object>)
    ensures
        r == spec_cross_scan(objects@, a, b),
{
    let mut i: usize = 0;
    proof {
        assert(objects@.skip(0) =~= objects@);
    }
    while i < objects.len()
        invariant
            i <= objects.len(),
            spec_cross_scan(objects@.skip(i as int), a, b) == spec_cross_scan(objects@, a, b),
        decreases objects.len() - i,
    {
        proof {
            assert(objects@.skip(i as int)[0] == objects@[i as int]);
            assert(objects@.skip(i as int).skip(1) =~= objects@.skip(i as int + 1));
        }
        if objects[i].sphere.hit(a, b) {
            return Option::Some(objects[i]);
        }
        i = i + 1;
    }
    proof {
        assert(objects@.skip(objects@.len() as int).len() == 0);
    }
    Option::None
}

impl Marcher {
    pub open spec fn wf(&self) -> bool {
        &&& self.mass >= 0
        &&& self.d_tau > 0
        &&& 0 <= self.checker_n <= 1024
    }

    /// The absorption radius: three halves of the mass.
    pub open spec fn spec_horizon(&self) -> i64 {
        spec_mul(self.mass, FX_THREE_HALVES)
    }

    /// The central body as a sphere of the absorption radius, used only for
    /// distance probes; it has no color of its own.
    pub open spec fn spec_bh_sphere(&self) -> Sphere {
        Sphere { center: self.center, radius: self.spec_horizon() }
    }

    pub open spec fn spec_absorbed(&self, x: Vector) -> bool {
        spec_norm(spec_vsub(x, self.center)) < self.spec_horizon()
    }

    /// The bending acceleration at offset `dx` from the mass, with `r` its
    /// norm: `dx * (-M/r^3 + (2M/r^3) * (v . dx) / r^2)`. Where the cubed or
    /// squared radius truncates to zero the acceleration is taken as zero.
    #[verifier::opaque]
    pub open spec fn spec_accel(&self, dx: Vector, r: i64, v: Vector) -> Vector {
        let r2 = spec_mul(r, r);
        let r3 = spec_mul(r2, r);
        if r2 <= 0 || r3 <= 0 {
            spec_vzero()
        } else {
            let t1 = spec_div(spec_neg(self.mass), r3);
            let two_m = spec_mul(FX_TWO, self.mass);
            let t2 = spec_div(spec_mul(spec_div(two_m, r3), spec_dot(v, dx)), r2);
            spec_vscale(dx, spec_add(t1, t2))
        }
    }

    /// One physics update: `v += a * dtau; x += v * dtau`, and the distance
    /// budget shrinks by the length of the move.
    #[verifier::opaque]
    pub open spec fn spec_phys(&self, s: March) -> March {
        let dx = spec_vsub(s.x, self.center);
        let r = spec_norm(dx);
        let a = self.spec_accel(dx, r, s.v);
        let v2 = spec_vadd(s.v, spec_vscale(a, self.d_tau));
        let x2 = spec_vadd(s.x, spec_vscale(v2, self.d_tau));
        let rest2 = spec_sub(s.rest, spec_mul(spec_norm(v2), self.d_tau));
        March { x: x2, v: v2, rest: rest2 }
    }

    /// One step of the march: absorption is tested first, on the position
    /// before the update; only when the distance budget is spent is the scene
    /// probed, at the updated position.
    #[verifier::opaque]
    pub open spec fn spec_step_once(&self, objects: Seq<Object>, s: March) -> StepResult {
        if self.spec_absorbed(s.x) {
            StepResult::Absorbed
        } else {
            let s2 = self.spec_phys(s);
            if s2.rest <= 0 {
                match spec_scan(objects, s2.x, self.spec_bh_sphere().spec_signed_distance(s2.x)) {
                    Scan::Struck(o) => StepResult::Struck(o, s2.x),
                    Scan::Clear(md) => StepResult::Advanced(
                        March { x: s2.x, v: s2.v, rest: spec_mul(md, FX_NINE_TENTHS) },
                    ),
                }
            } else {
                StepResult::Advanced(s2)
            }
        }
    }

    /// The march: steps until absorption, a crossing, or an empty budget.
    pub open spec fn spec_march(&self, objects: Seq<Object>, s: March, fuel: nat) -> Outcome
        decreases fuel,
    {
        if fuel == 0 {
            Outcome::Exhausted
        } else {
            match self.spec_step_once(objects, s) {
                StepResult::Absorbed => Outcome::Absorbed,
                StepResult::Struck(o, p) => Outcome::Struck(o, p),
                StepResult::Advanced(s2) => self.spec_march(objects, s2, (fuel - 1) as nat),
            }
        }
    }

    /// One step of the fixed-step strategy: absorption is tested first, on
    /// the position before the update; then every object's crossing test runs
    /// over the step just taken, earliest in scene order first.
    #[verifier::opaque]
    pub open spec fn spec_step_once_crossing(&self, objects: Seq<Object>, s: March) -> StepResult {
        if self.spec_absorbed(s.x) {
            StepResult::Absorbed
        } else {
            let s2 = self.spec_phys(s);
            match spec_cross_scan(objects, s.x, s2.x) {
                Option::Some(o) => StepResult::Struck(o, s2.x),
                Option::None => StepResult::Advanced(s2),
            }
        }
    }

    /// The fixed-step march: steps until absorption, a crossing, or an empty
    /// budget.
    pub open spec fn spec_march_crossing(&self, objects: Seq<Object>, s: March, fuel: nat) -> Outcome
        decreases fuel,
    {
        if fuel == 0 {
            Outcome::Exhausted
        } else {
            match self.spec_step_once_crossing(objects, s) {
                StepResult::Absorbed => Outcome::Absorbed,
                StepResult::Struck(o, p) => Outcome::Struck(o, p),
                StepResult::Advanced(s2) => self.spec_march_crossing(objects, s2, (fuel - 1) as nat),
            }
        }
    }

    /// The fixed-step trajectory: the physics update applied `k` times.
    pub open spec fn spec_traj_crossing(&self, objects: Seq<Object>, s: March, k: nat) -> March
        decreases k,
    {
        if k == 0 {
            s
        } else {
            self.spec_phys(self.spec_traj_crossing(objects, s, (k - 1) as nat))
        }
    }

    /// A step whose crossing test strikes a surface, under the fixed-step
    /// strategy.
    pub open spec fn spec_hit_event_crossing(&self, objects: Seq<Object>, s: March) -> bool {
        spec_cross_scan(objects, s.x, self.spec_phys(s).x) is Some
    }

    /// The state a fixed-step trace starts from: no distance budget is kept.
    pub open spec fn spec_initial_crossing(&self, ray: Ray) -> March {
        March { x: ray.origin, v: spec_normalized(ray.direction), rest: 0 }
    }

    /// The color a fixed-step outcome is rendered as: a struck object's own
    /// color, unmodified.
    pub open spec fn spec_crossing_color(&self, out: Outcome) -> Color {
        match out {
            Outcome::Absorbed => spec_black(),
            Outcome::Struck(o, p) => o.color,
            Outcome::Exhausted => self.background,
        }
    }

    /// What a fixed-step trace returns.
    pub open spec fn spec_trace_fixed_step(&self, objects: Seq<Object>, ray: Ray) -> Color {
        self.spec_crossing_color(
            self.spec_march_crossing(objects, self.spec_initial_crossing(ray), self.budget as nat),
        )
    }

    /// The state update alone, with no termination: the trajectory the
    /// marcher would follow. A probe that strikes a surface leaves the state
    /// as the physics update made it.
    #[verifier::opaque]
    pub open spec fn spec_free_step(&self, objects: Seq<Object>, s: March) -> March {
        let s2 = self.spec_phys(s);
        if s2.rest <= 0 {
            match spec_scan(objects, s2.x, self.spec_bh_sphere().spec_signed_distance(s2.x)) {
                Scan::Struck(o) => s2,
                Scan::Clear(md) => March { x: s2.x, v: s2.v, rest: spec_mul(md, FX_NINE_TENTHS) },
            }
        } else {
            s2
        }
    }

    /// The trajectory: the state after `k` free steps.
    pub open spec fn spec_traj(&self, objects: Seq<Object>, s: March, k: nat) -> March
        decreases k,
    {
        if k == 0 {
            s
        } else {
            self.spec_free_step(objects, self.spec_traj(objects, s, (k - 1) as nat))
        }
    }

    /// A step whose probe strikes a surface: the event that ends a march with
    /// an object's color.
    pub open spec fn spec_hit_event(&self, objects: Seq<Object>, s: March) -> bool {
        let s2 = self.spec_phys(s);
        s2.rest <= 0 && (spec_scan(
            objects,
            s2.x,
            self.spec_bh_sphere().spec_signed_distance(s2.x),
        ) matches Scan::Struck(_))
    }

    /// The state a trace starts from: the origin, the normalized direction,
    /// and nine tenths of the least signed distance as the first budget.
    pub open spec fn spec_initial(&self, objects: Seq<Object>, ray: Ray) -> March {
        March {
            x: ray.origin,
            v: spec_normalized(ray.direction),
            rest: spec_mul(
                spec_min_sd(objects, ray.origin, self.spec_bh_sphere().spec_signed_distance(ray.origin)),
                FX_NINE_TENTHS,
            ),
        }
    }

    /// The color an outcome is rendered as.
    pub open spec fn spec_outcome_color(&self, out: Outcome) -> Color {
        match out {
            Outcome::Absorbed => spec_black(),
            Outcome::Struck(o, p) => spec_shade(o, p, self.checker_n),
            Outcome::Exhausted => self.background,
        }
    }

    /// What a trace returns, under the configured strategy.
    pub open spec fn spec_trace(&self, objects: Seq<Object>, ray: Ray) -> Color {
        match self.strategy {
            Strategy::FixedStep => self.spec_trace_fixed_step(objects, ray),
            Strategy::SphereTraced => self.spec_trace_sphere_traced(objects, ray),
        }
    }

    /// What a sphere-traced trace returns: black at once if the origin is
    /// already inside a surface, else the color of the march's outcome.
    pub open spec fn spec_trace_sphere_traced(&self, objects: Seq<Object>, ray: Ray) -> Color {
        let min0 = spec_min_sd(
            objects,
            ray.origin,
            self.spec_bh_sphere().spec_signed_distance(ray.origin),
        );
        if min0 < 0 {
            spec_black()
        } else {
            self.spec_outcome_color(
                self.spec_march(objects, self.spec_initial(objects, ray), self.budget as nat),
            )
        }
    }
}

/// The latitude band of the offset `l`, from the clamped cosine of the polar
/// angle: band `i` covers an equal slice of `1 - cos(theta)`, a monotone
/// surrogate of the polar angle itself.
#[verifier::opaque]
pub open spec fn spec_lat_band(l: Vector, ln: i64, n: i64) -> int {
    if ln <= 0 {
        0
    } else {
        let cosv = spec_div(l.z, ln);
        let cv: i64 = if cosv > FX_ONE {
            FX_ONE
        } else if cosv < -FX_ONE {
            (-FX_ONE) as i64
        } else {
            cosv
        };
        tdiv((FX_ONE - cv) * n, 2 * FX_ONE)
    }
}

/// The longitude band, from the diamond angle of `(x, y)`: a piecewise
/// rational, monotone surrogate of the azimuthal angle, ranging over
/// `[0, 4)` units around the full turn.
#[verifier::opaque]
pub open spec fn spec_lon_band(l: Vector, n: i64) -> int {
    let ax = spec_abs(l.x);
    let ay = spec_abs(l.y);
    let s = spec_add(ax, ay);
    if s <= 0 {
        0
    } else {
        let f0 = spec_div(ay, s);
        let f: i64 = if f0 > FX_ONE {
            FX_ONE
        } else if f0 < 0 {
            0
        } else {
            f0
        };
        let t: int = if l.x >= 0 && l.y >= 0 {
            f as int
        } else if l.x < 0 && l.y >= 0 {
            2 * FX_ONE - f
        } else if l.x < 0 {
            2 * FX_ONE + f
        } else {
            4 * FX_ONE - f
        };
        tdiv(t * n, 2 * FX_ONE)
    }
}

/// Checkerboard shading at the hit point: the object's own color on even
/// bands, the half-intensity companion on odd ones. The band indices come
/// from monotone surrogates of the polar and azimuthal angles; the exact
/// banding at the wrap-around is this renderer's own choice.
#[verifier::opaque]
pub open spec fn spec_shade(o: Object, p: Vector, n: i64) -> Color {
    let l = spec_vsub(p, o.sphere.center);
    let ln = spec_norm(l);
    let lat = spec_lat_band(l, ln, n);
    let lon = spec_lon_band(l, n);
    if (lat + lon) % 2 == 0 {
        o.color
    } else {
        spec_vscale(o.color, FX_HALF)
    }
}

/// Probe the scene at `p`: the earliest object whose surface is reached, or
/// the least signed distance over all of them and `acc`.
pub fn scan(objects: &Vec<Object>, p: Vector, acc: i64) -> (r: Scan)
    ensures
        r == spec_scan(objects@, p, acc),
{
    let mut cur: i64 = acc;
    let mut i: usize = 0;
    proof {
        assert(objects@.skip(0) =~= objects@);
    }
    while i < objects.len()
        invariant
            i <= objects.len(),
            spec_scan(objects@.skip(i as int), p, cur) == spec_scan(objects@, p, acc),
        decreases objects.len() - i,
    {
        proof {
            assert(objects@.skip(i as int)[0] == objects@[i as int]);
            assert(objects@.skip(i as int).skip(1) =~= objects@.skip(i as int + 1));
        }
        let d = objects[i].sphere.signed_distance(p);
        if d <= 0 {
            return Scan::Struck(objects[i]);
        }
        if d < cur {
            cur = d;
        }
        i = i + 1;
    }
    proof {
        assert(objects@.skip(objects@.len() as int).len() == 0);
    }
    Scan::Clear(cur)
}

/// The least signed distance at `p` over all objects and `acc`.
pub fn min_sd(objects: &Vec<Object>, p: Vector, acc: i64) -> (r: i64)
    ensures
        r == spec_min_sd(objects@, p, acc),
{
    let mut cur: i64 = acc;
    let mut i: usize = 0;
    proof {
        assert(objects@.skip(0) =~= objects@);
    }
    while i < objects.len()
        invariant
            i <= objects.len(),
            spec_min_sd(objects@.skip(i as int), p, cur) == spec_min_sd(objects@, p, acc),
        decreases objects.len() - i,
    {
        proof {
            assert(objects@.skip(i as int)[0] == objects@[i as int]);
            assert(objects@.skip(i as int).skip(1) =~= objects@.skip(i as int + 1));
        }
        let d = objects[i].sphere.signed_distance(p);
        if d < cur {
            cur = d;
        }
        i = i + 1;
    }
    proof {
        assert(objects@.skip(objects@.len() as int).len() == 0);
    }
    cur
}

impl Marcher {
    fn accel(&self, dx: Vector, r: i64, v: Vector) -> (a: Vector)
        ensures
            a == self.spec_accel(dx, r, v),
    {
        proof {
            reveal(Marcher::spec_accel);
        }
        let r2 = fx_mul(r, r);
        let r3 = fx_mul(r2, r);
        if r2 <= 0 || r3 <= 0 {
            Vector::new(0, 0, 0)
        } else {
            let t1 = crate::fixed::fx_div(fx_neg(self.mass), r3);
            let two_m = fx_mul(FX_TWO, self.mass);
            let t2 = crate::fixed::fx_div(
                fx_mul(crate::fixed::fx_div(two_m, r3), v.dot(&dx)),
                r2,
            );
            dx.scale(crate::fixed::fx_add(t1, t2))
        }
    }

    fn phys(&self, s: March) -> (r: March)
        ensures
            r == self.spec_phys(s),
    {
        proof {
            reveal(Marcher::spec_phys);
        }
        let dx = s.x.minus(&self.center);
        let rr = dx.norm();
        let a = self.accel(dx, rr, s.v);
        let v2 = s.v.plus(&a.scale(self.d_tau));
        let x2 = s.x.plus(&v2.scale(self.d_tau));
        let rest2 = fx_sub(s.rest, fx_mul(v2.norm(), self.d_tau));
        March { x: x2, v: v2, rest: rest2 }
    }

    /// One step of the march, with its possible events.
    pub fn step_once(&self, objects: &Vec<Object>, s: March) -> (r: StepResult)
        ensures
            r == self.spec_step_once(objects@, s),
    {
        proof {
            reveal(Marcher::spec_step_once);
        }
        let dx = s.x.minus(&self.center);
        let rr = dx.norm();
        let horizon = fx_mul(self.mass, FX_THREE_HALVES);
        if rr < horizon {
            return StepResult::Absorbed;
        }
        let s2 = self.phys(s);
        if s2.rest <= 0 {
            let bh = Sphere { center: self.center, radius: horizon };
            match scan(objects, s2.x, bh.signed_distance(s2.x)) {
                Scan::Struck(o) => StepResult::Struck(o, s2.x),
                Scan::Clear(md) => StepResult::Advanced(
                    March { x: s2.x, v: s2.v, rest: fx_mul(md, FX_NINE_TENTHS) },
                ),
            }
        } else {
            StepResult::Advanced(s2)
        }
    }

    /// One free step of the trajectory.
    pub fn advance(&self, objects: &Vec<Object>, s: March) -> (r: March)
        ensures
            r == self.spec_free_step(objects@, s),
    {
        proof {
            reveal(Marcher::spec_free_step);
        }
        let s2 = self.phys(s);
        if s2.rest <= 0 {
            let horizon = fx_mul(self.mass, FX_THREE_HALVES);
            let bh = Sphere { center: self.center, radius: horizon };
            match scan(objects, s2.x, bh.signed_distance(s2.x)) {
                Scan::Struck(_) => s2,
                Scan::Clear(md) => March { x: s2.x, v: s2.v, rest: fx_mul(md, FX_NINE_TENTHS) },
            }
        } else {
            s2
        }
    }

    /// Checkerboard shading of an object at a hit point.
    pub fn shade(&self, o: &Object, p: Vector) -> (c: Color)
        requires
            self.wf(),
        ensures
            c == spec_shade(*o, p, self.checker_n),
    {
        proof {
            reveal(spec_shade);
            reveal(spec_lat_band);
            reveal(spec_lon_band);
        }
        let l = p.minus(&o.sphere.center);
        let ln = l.norm();
        let lat: i64 = if ln <= 0 {
            0
        } else {
            let cosv = crate::fixed::fx_div(l.z(), ln);
            let cv: i64 = if cosv > FX_ONE {
                FX_ONE
            } else if cosv < -FX_ONE {
                -FX_ONE
            } else {
                cosv
            };
            let num: i64 = FX_ONE - cv;
            proof {
                assert(0 <= num * self.checker_n <= 0x8000000) by (nonlinear_arith)
                    requires
                        0 <= num <= 131072,
                        0 <= self.checker_n <= 1024,
                ;
            }
            (num * self.checker_n) / (2 * FX_ONE)
        };
        let ax = fx_abs(l.x());
        let ay = fx_abs(l.y());
        let s = crate::fixed::fx_add(ax, ay);
        let lon: i64 = if s <= 0 {
            0
        } else {
            let f0 = crate::fixed::fx_div(ay, s);
            let f: i64 = if f0 > FX_ONE {
                FX_ONE
            } else if f0 < 0 {
                0
            } else {
                f0
            };
            let t: i64 = if l.x() >= 0 && l.y() >= 0 {
                f
            } else if l.x() < 0 && l.y() >= 0 {
                2 * FX_ONE - f
            } else if l.x() < 0 {
                2 * FX_ONE + f
            } else {
                4 * FX_ONE - f
            };
            proof {
                assert(0 <= t * self.checker_n <= 0x20000000) by (nonlinear_arith)
                    requires
                        0 <= t <= 262144,
                        0 <= self.checker_n <= 1024,
                ;
            }
            (t * self.checker_n) / (2 * FX_ONE)
        };
        proof {
            assert(lat as int == spec_lat_band(l, ln, self.checker_n));
            assert(lon as int == spec_lon_band(l, self.checker_n));
        }
        if (lat + lon) % 2 == 0 {
            o.color
        } else {
            o.color.scale(FX_HALF)
        }
    }

    /// Trace a ray under the distance-bounded strategy.
    #[verifier::rlimit(60)]
    fn trace_sphere_traced(&self, objects: &Vec<Object>, ray: &Ray) -> (c: Color)
        requires
            self.wf(),
            spec_norm(ray.direction) > 0,
        ensures
            c == self.spec_trace_sphere_traced(objects@, *ray),
    {
        let v0 = ray.direction.normalized();
        let horizon = fx_mul(self.mass, FX_THREE_HALVES);
        let bh = Sphere { center: self.center, radius: horizon };
        let min0 = min_sd(objects, ray.origin, bh.signed_distance(ray.origin));
        if min0 < 0 {
            return black();
        }
        let mut s = March { x: ray.origin, v: v0, rest: fx_mul(min0, FX_NINE_TENTHS) };
        let ghost s0 = s;
        proof {
            assert(s0 == self.spec_initial(objects@, *ray));
        }
        let mut i: u32 = 0;
        while i < self.budget
            invariant
                i <= self.budget,
                self.wf(),
                self.spec_march(objects@, s, (self.budget - i) as nat) == self.spec_march(
                    objects@,
                    s0,
                    self.budget as nat,
                ),
                self.spec_trace_sphere_traced(objects@, *ray) == self.spec_outcome_color(
                    self.spec_march(objects@, s0, self.budget as nat),
                ),
            decreases self.budget - i,
        {
            let ghost fuel = (self.budget - i) as nat;
            match self.step_once(objects, s) {
                StepResult::Absorbed => {
                    proof {
                        assert(self.spec_march(objects@, s, fuel) == Outcome::Absorbed);
                    }
                    return black();
                },
                StepResult::Struck(o, p) => {
                    proof {
                        assert(self.spec_march(objects@, s, fuel) == Outcome::Struck(o, p));
                    }
                    return self.shade(&o, p);
                },
                StepResult::Advanced(s2) => {
                    proof {
                        assert(self.spec_march(objects@, s, fuel) == self.spec_march(
                            objects@,
                            s2,
                            (fuel - 1) as nat,
                        ));
                    }
                    s = s2;
                    i = i + 1;
                },
            }
        }
        proof {
            assert(self.spec_march(objects@, s, 0) == Outcome::Exhausted);
        }
        self.background
    }

    /// One step of the fixed-step march, with its possible events.
    pub fn step_once_crossing(&self, objects: &Vec<Object>, s: March) -> (r: StepResult)
        ensures
            r == self.spec_step_once_crossing(objects@, s),
    {
        proof {
            reveal(Marcher::spec_step_once_crossing);
        }
        let dx = s.x.minus(&self.center);
        let rr = dx.norm();
        let horizon = fx_mul(self.mass, FX_THREE_HALVES);
        if rr < horizon {
            return StepResult::Absorbed;
        }
        let s2 = self.phys(s);
        match cross_scan(objects, s.x, s2.x) {
            Option::Some(o) => StepResult::Struck(o, s2.x),
            Option::None => StepResult::Advanced(s2),
        }
    }

    /// Trace a ray under the fixed-step strategy.
    #[verifier::rlimit(60)]
    fn trace_fixed_step(&self, objects: &Vec<Object>, ray: &Ray) -> (c: Color)
        requires
            self.wf(),
            spec_norm(ray.direction) > 0,
        ensures
            c == self.spec_trace_fixed_step(objects@, *ray),
    {
        let v0 = ray.direction.normalized();
        let mut s = March { x: ray.origin, v: v0, rest: 0 };
        let ghost s0 = s;
        proof {
            assert(s0 == self.spec_initial_crossing(*ray));
        }
        let mut i: u32 = 0;
        while i < self.budget
            invariant
                i <= self.budget,
                self.wf(),
                self.spec_march_crossing(objects@, s, (self.budget - i) as nat)
                    == self.spec_march_crossing(objects@, s0, self.budget as nat),
                self.spec_trace_fixed_step(objects@, *ray) == self.spec_crossing_color(
                    self.spec_march_crossing(objects@, s0, self.budget as nat),
                ),
            decreases self.budget - i,
        {
            let ghost fuel = (self.budget - i) as nat;
            match self.step_once_crossing(objects, s) {
                StepResult::Absorbed => {
                    proof {
                        assert(self.spec_march_crossing(objects@, s, fuel) == Outcome::Absorbed);
                    }
                    return black();
                },
                StepResult::Struck(o, p) => {
                    proof {
                        assert(self.spec_march_crossing(objects@, s, fuel) == Outcome::Struck(
                            o,
                            p,
                        ));
                    }
                    return o.color;
                },
                StepResult::Advanced(s2) => {
                    proof {
                        assert(self.spec_march_crossing(objects@, s, fuel)
                            == self.spec_march_crossing(objects@, s2, (fuel - 1) as nat));
                    }
                    s = s2;
                    i = i + 1;
                },
            }
        }
        proof {
            assert(self.spec_march_crossing(objects@, s, 0) == Outcome::Exhausted);
        }
        self.background
    }

    /// Trace a ray against the scene: the color seen along it, under the
    /// configured strategy.
    pub fn trace(&self, objects: &Vec<Object>, ray: &Ray) -> (c: Color)
        requires
            self.wf(),
            spec_norm(ray.direction) > 0,
        ensures
            c == self.spec_trace(objects@, *ray),
    {
        match self.strategy {
            Strategy::FixedStep => self.trace_fixed_step(objects, ray),
            Strategy::SphereTraced => self.trace_sphere_traced(objects, ray),
        }
    }

    /// The position after a fixed number of trajectory steps: the marcher's
    /// path itself, with no termination events.
    pub fn trajectory_position(&self, objects: &Vec<Object>, ray: &Ray, steps: u32) -> (p: Vector)
        requires
            spec_norm(ray.direction) > 0,
        ensures
            p == self.spec_traj(objects@, self.spec_initial(objects@, *ray), steps as nat).x,
    {
        let v0 = ray.direction.normalized();
        let horizon = fx_mul(self.mass, FX_THREE_HALVES);
        let bh = Sphere { center: self.center, radius: horizon };
        let min0 = min_sd(objects, ray.origin, bh.signed_distance(ray.origin));
        let mut s = March { x: ray.origin, v: v0, rest: fx_mul(min0, FX_NINE_TENTHS) };
        let ghost s0 = s;
        let mut i: u32 = 0;
        while i < steps
            invariant
                i <= steps,
                s == self.spec_traj(objects@, s0, i as nat),
            decreases steps - i,
        {
            s = self.advance(objects, s);
            i = i + 1;
        }
        s.x
    }
}

} // verus!
