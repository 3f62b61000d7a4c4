//! Laws of the marcher, proved once and for all over its model.

use vstd::prelude::*;

use vstd::arithmetic::div_mod::lemma_div_of0;

use crate::fixed::FX_HALF;
use crate::marcher::{spec_black, spec_shade, March, Marcher, Object, Outcome, StepResult, Strategy};
use crate::vector::{spec_vscale, spec_vzero, Ray, Vector};

verus! {

/// With no mass the bending acceleration vanishes exactly, in every state.
pub proof fn lemma_zero_mass_no_bending(m: Marcher, dx: Vector, r: i64, v: Vector)
    requires
        m.mass == 0,
    ensures
        m.spec_accel(dx, r, v) == spec_vzero(),
{
    reveal(Marcher::spec_accel);
    let r2 = crate::fixed::spec_mul(r, r);
    let r3 = crate::fixed::spec_mul(r2, r);
    if r2 <= 0 || r3 <= 0 {
    } else {
        lemma_div_of0(r3 as int);
        lemma_div_of0(r2 as int);
        lemma_div_of0(65536);
        assert(crate::fixed::spec_neg(0) == 0);
        assert(crate::fixed::spec_div(0, r3) == 0);
        assert(crate::fixed::spec_mul(crate::fixed::FX_TWO, 0) == 0);
        assert(crate::fixed::spec_mul(0, crate::vector::spec_dot(v, dx)) == 0);
        assert(crate::fixed::spec_div(0, r2) == 0);
        assert(crate::fixed::spec_add(0, 0) == 0);
        assert(crate::vector::spec_vscale(dx, 0) == spec_vzero());
    }
}

/// The per-step displacement of a straight trajectory stays within range at
/// step `j`: the exact component sums are representable.
pub open spec fn line_in_range(s: March, w: Vector, j: nat) -> bool {
    &&& i64::MIN <= s.x.x + j * w.x <= i64::MAX
    &&& i64::MIN <= s.x.y + j * w.y <= i64::MAX
    &&& i64::MIN <= s.x.z + j * w.z <= i64::MAX
}

/// With no mass the marcher's trajectory is a straight line: the velocity
/// never changes, and after `k` steps the position is the start plus `k`
/// times the one fixed per-step move `v * d_tau`.
pub proof fn lemma_zero_mass_straight_line(m: Marcher, objects: Seq<Object>, s: March, k: nat)
    requires
        m.mass == 0,
        forall|j: nat| j <= k ==> #[trigger] line_in_range(s, spec_vscale(s.v, m.d_tau), j),
    ensures
        m.spec_traj(objects, s, k).v == s.v,
        m.spec_traj(objects, s, k).x.x == s.x.x + k * spec_vscale(s.v, m.d_tau).x,
        m.spec_traj(objects, s, k).x.y == s.x.y + k * spec_vscale(s.v, m.d_tau).y,
        m.spec_traj(objects, s, k).x.z == s.x.z + k * spec_vscale(s.v, m.d_tau).z,
    decreases k,
{
    let w = spec_vscale(s.v, m.d_tau);
    if k == 0 {
        assert(line_in_range(s, w, 0));
        assert(s.x.x + 0 * w.x == s.x.x);
        assert(s.x.y + 0 * w.y == s.x.y);
        assert(s.x.z + 0 * w.z == s.x.z);
    } else {
        lemma_zero_mass_straight_line(m, objects, s, (k - 1) as nat);
        let t = m.spec_traj(objects, s, (k - 1) as nat);
        reveal(Marcher::spec_free_step);
        reveal(Marcher::spec_phys);
        lemma_zero_mass_no_bending(m, crate::vector::spec_vsub(t.x, m.center),
            crate::vector::spec_norm(crate::vector::spec_vsub(t.x, m.center)), t.v);
        let s2 = m.spec_phys(t);
        assert(s2.v == t.v);
        assert(line_in_range(s, w, k));
        assert(line_in_range(s, w, (k - 1) as nat));
        assert((k as int) * w.x == (k - 1) as int * w.x + w.x) by (nonlinear_arith);
        assert((k as int) * w.y == (k - 1) as int * w.y + w.y) by (nonlinear_arith);
        assert((k as int) * w.z == (k - 1) as int * w.z + w.z) by (nonlinear_arith);
        assert(s2.x.x == s.x.x + k * w.x);
        assert(s2.x.y == s.x.y + k * w.y);
        assert(s2.x.z == s.x.z + k * w.z);
        assert(m.spec_traj(objects, s, k) == m.spec_free_step(objects, t));
    }
}

/// Absorption takes precedence over every scene test: a march that stands
/// within the absorption radius ends absorbed, whatever the scene holds, and
/// is rendered pure black.
pub proof fn lemma_absorption_takes_precedence(
    m: Marcher,
    objects: Seq<Object>,
    s: March,
    fuel: nat,
)
    requires
        fuel > 0,
        m.spec_absorbed(s.x),
    ensures
        m.spec_march(objects, s, fuel) == Outcome::Absorbed,
        m.spec_outcome_color(m.spec_march(objects, s, fuel)) == spec_black(),
{
    reveal(Marcher::spec_step_once);
}

/// The trajectory from one free step on equals the tail of the trajectory.
pub proof fn lemma_traj_shift(m: Marcher, objects: Seq<Object>, s: March, k: nat)
    ensures
        m.spec_traj(objects, m.spec_free_step(objects, s), k) == m.spec_traj(
            objects,
            s,
            (k + 1) as nat,
        ),
    decreases k,
{
    let s1 = m.spec_free_step(objects, s);
    if k == 0 {
        assert(m.spec_traj(objects, s1, 0) == s1);
        assert(m.spec_traj(objects, s, 1) == m.spec_free_step(objects, m.spec_traj(objects, s, 0)));
    } else {
        lemma_traj_shift(m, objects, s, (k - 1) as nat);
        assert(m.spec_traj(objects, s1, k) == m.spec_free_step(
            objects,
            m.spec_traj(objects, s1, (k - 1) as nat),
        ));
        assert(m.spec_traj(objects, s, (k + 1) as nat) == m.spec_free_step(
            objects,
            m.spec_traj(objects, s, k),
        ));
    }
}

/// A state that is neither absorbed nor about to strike a surface advances
/// by exactly one free step.
proof fn lemma_quiet_step_advances(m: Marcher, objects: Seq<Object>, s: March)
    requires
        !m.spec_absorbed(s.x),
        !m.spec_hit_event(objects, s),
    ensures
        m.spec_step_once(objects, s) == StepResult::Advanced(m.spec_free_step(objects, s)),
{
    reveal(Marcher::spec_step_once);
    reveal(Marcher::spec_free_step);
}

/// A march that never comes within the absorption radius and never strikes
/// any object within its budget exhausts the budget.
pub proof fn lemma_never_hit_exhausts(m: Marcher, objects: Seq<Object>, s: March, fuel: nat)
    requires
        forall|k: nat|
            k < fuel ==> !m.spec_absorbed((#[trigger] m.spec_traj(objects, s, k)).x),
        forall|k: nat|
            k < fuel ==> !m.spec_hit_event(objects, #[trigger] m.spec_traj(objects, s, k)),
    ensures
        m.spec_march(objects, s, fuel) == Outcome::Exhausted,
        m.spec_outcome_color(m.spec_march(objects, s, fuel)) == m.background,
    decreases fuel,
{
    if fuel == 0 {
    } else {
        assert(m.spec_traj(objects, s, 0) == s);
        lemma_quiet_step_advances(m, objects, s);
        let s1 = m.spec_free_step(objects, s);
        assert forall|k: nat| k < (fuel - 1) as nat implies !m.spec_absorbed(
            (#[trigger] m.spec_traj(objects, s1, k)).x,
        ) by {
            lemma_traj_shift(m, objects, s, k);
            assert(m.spec_traj(objects, s, (k + 1) as nat) == m.spec_traj(objects, s1, k));
        }
        assert forall|k: nat| k < (fuel - 1) as nat implies !m.spec_hit_event(
            objects,
            #[trigger] m.spec_traj(objects, s1, k),
        ) by {
            lemma_traj_shift(m, objects, s, k);
            assert(m.spec_traj(objects, s, (k + 1) as nat) == m.spec_traj(objects, s1, k));
        }
        lemma_never_hit_exhausts(m, objects, s1, (fuel - 1) as nat);
    }
}

/// A march whose trajectory comes within the absorption radius at some step
/// within the budget, with no earlier event, ends absorbed.
pub proof fn lemma_capture_absorbs(
    m: Marcher,
    objects: Seq<Object>,
    s: March,
    k: nat,
    fuel: nat,
)
    requires
        k < fuel,
        m.spec_absorbed(m.spec_traj(objects, s, k).x),
        forall|j: nat|
            j < k ==> !m.spec_absorbed((#[trigger] m.spec_traj(objects, s, j)).x),
        forall|j: nat|
            j < k ==> !m.spec_hit_event(objects, #[trigger] m.spec_traj(objects, s, j)),
    ensures
        m.spec_march(objects, s, fuel) == Outcome::Absorbed,
        m.spec_outcome_color(m.spec_march(objects, s, fuel)) == spec_black(),
    decreases k,
{
    if k == 0 {
        lemma_absorption_takes_precedence(m, objects, s, fuel);
    } else {
        assert(m.spec_traj(objects, s, 0) == s);
        lemma_quiet_step_advances(m, objects, s);
        let s1 = m.spec_free_step(objects, s);
        lemma_traj_shift(m, objects, s, (k - 1) as nat);
        assert(m.spec_absorbed(m.spec_traj(objects, s1, (k - 1) as nat).x));
        assert forall|j: nat| j < (k - 1) as nat implies !m.spec_absorbed(
            (#[trigger] m.spec_traj(objects, s1, j)).x,
        ) by {
            lemma_traj_shift(m, objects, s, j);
            assert(m.spec_traj(objects, s, (j + 1) as nat) == m.spec_traj(objects, s1, j));
        }
        assert forall|j: nat| j < (k - 1) as nat implies !m.spec_hit_event(
            objects,
            #[trigger] m.spec_traj(objects, s1, j),
        ) by {
            lemma_traj_shift(m, objects, s, j);
            assert(m.spec_traj(objects, s, (j + 1) as nat) == m.spec_traj(objects, s1, j));
        }
        lemma_capture_absorbs(m, objects, s1, (k - 1) as nat, (fuel - 1) as nat);
    }
}

/// A ray captured by the central mass within the budget, before any other
/// event, is rendered pure black whatever objects stand beyond that radius.
pub proof fn lemma_capture_renders_black(m: Marcher, objects: Seq<Object>, ray: Ray, k: nat)
    requires
        m.strategy == Strategy::SphereTraced,
        k < m.budget,
        m.spec_absorbed(m.spec_traj(objects, m.spec_initial(objects, ray), k).x),
        forall|j: nat|
            j < k ==> !m.spec_absorbed(
                (#[trigger] m.spec_traj(objects, m.spec_initial(objects, ray), j)).x,
            ),
        forall|j: nat|
            j < k ==> !m.spec_hit_event(
                objects,
                #[trigger] m.spec_traj(objects, m.spec_initial(objects, ray), j),
            ),
    ensures
        m.spec_trace(objects, ray) == spec_black(),
{
    let min0 = crate::marcher::spec_min_sd(
        objects,
        ray.origin,
        m.spec_bh_sphere().spec_signed_distance(ray.origin),
    );
    if min0 < 0 {
    } else {
        lemma_capture_absorbs(m, objects, m.spec_initial(objects, ray), k, m.budget as nat);
    }
}

/// A ray that neither is captured nor strikes any object within the budget,
/// and does not start inside a surface, is rendered as the background.
pub proof fn lemma_miss_renders_background(m: Marcher, objects: Seq<Object>, ray: Ray)
    requires
        m.strategy == Strategy::SphereTraced,
        crate::marcher::spec_min_sd(
            objects,
            ray.origin,
            m.spec_bh_sphere().spec_signed_distance(ray.origin),
        ) >= 0,
        forall|k: nat|
            k < m.budget ==> !m.spec_absorbed(
                (#[trigger] m.spec_traj(objects, m.spec_initial(objects, ray), k)).x,
            ),
        forall|k: nat|
            k < m.budget ==> !m.spec_hit_event(
                objects,
                #[trigger] m.spec_traj(objects, m.spec_initial(objects, ray), k),
            ),
    ensures
        m.spec_trace(objects, ray) == m.background,
{
    lemma_never_hit_exhausts(m, objects, m.spec_initial(objects, ray), m.budget as nat);
}

/// The physics update reads only the position and the velocity; the carried
/// distance budget never feeds back into the path.
proof fn lemma_phys_reads_only_the_path(m: Marcher, s1: March, s2: March)
    requires
        s1.x == s2.x,
        s1.v == s2.v,
    ensures
        m.spec_phys(s1).x == m.spec_phys(s2).x,
        m.spec_phys(s1).v == m.spec_phys(s2).v,
{
    reveal(Marcher::spec_phys);
}

/// Both strategies march the same path: position and velocity after `k`
/// steps agree, whether or not a distance budget is kept. The straight-line
/// law above therefore covers the fixed-step trajectory as well.
pub proof fn lemma_strategies_share_the_path(m: Marcher, objects: Seq<Object>, s: March, k: nat)
    ensures
        m.spec_traj_crossing(objects, s, k).x == m.spec_traj(objects, s, k).x,
        m.spec_traj_crossing(objects, s, k).v == m.spec_traj(objects, s, k).v,
    decreases k,
{
    if k == 0 {
    } else {
        lemma_strategies_share_the_path(m, objects, s, (k - 1) as nat);
        let ta = m.spec_traj_crossing(objects, s, (k - 1) as nat);
        let tb = m.spec_traj(objects, s, (k - 1) as nat);
        lemma_phys_reads_only_the_path(m, ta, tb);
        reveal(Marcher::spec_free_step);
        assert(m.spec_traj(objects, s, k) == m.spec_free_step(objects, tb));
        assert(m.spec_free_step(objects, tb).x == m.spec_phys(tb).x);
        assert(m.spec_free_step(objects, tb).v == m.spec_phys(tb).v);
    }
}

/// Absorption takes precedence under the fixed-step strategy too.
pub proof fn lemma_absorption_takes_precedence_crossing(
    m: Marcher,
    objects: Seq<Object>,
    s: March,
    fuel: nat,
)
    requires
        fuel > 0,
        m.spec_absorbed(s.x),
    ensures
        m.spec_march_crossing(objects, s, fuel) == Outcome::Absorbed,
        m.spec_crossing_color(m.spec_march_crossing(objects, s, fuel)) == spec_black(),
{
    reveal(Marcher::spec_step_once_crossing);
}

/// The fixed-step trajectory from one update on equals its own tail.
pub proof fn lemma_traj_crossing_shift(m: Marcher, objects: Seq<Object>, s: March, k: nat)
    ensures
        m.spec_traj_crossing(objects, m.spec_phys(s), k) == m.spec_traj_crossing(
            objects,
            s,
            (k + 1) as nat,
        ),
    decreases k,
{
    let s1 = m.spec_phys(s);
    if k == 0 {
        assert(m.spec_traj_crossing(objects, s1, 0) == s1);
        assert(m.spec_traj_crossing(objects, s, 1) == m.spec_phys(
            m.spec_traj_crossing(objects, s, 0),
        ));
    } else {
        lemma_traj_crossing_shift(m, objects, s, (k - 1) as nat);
        assert(m.spec_traj_crossing(objects, s1, k) == m.spec_phys(
            m.spec_traj_crossing(objects, s1, (k - 1) as nat),
        ));
        assert(m.spec_traj_crossing(objects, s, (k + 1) as nat) == m.spec_phys(
            m.spec_traj_crossing(objects, s, k),
        ));
    }
}

proof fn lemma_quiet_step_advances_crossing(m: Marcher, objects: Seq<Object>, s: March)
    requires
        !m.spec_absorbed(s.x),
        !m.spec_hit_event_crossing(objects, s),
    ensures
        m.spec_step_once_crossing(objects, s) == StepResult::Advanced(m.spec_phys(s)),
{
    reveal(Marcher::spec_step_once_crossing);
}

/// A fixed-step march that never comes within the absorption radius and
/// whose steps never cross any object's surface exhausts the budget and is
/// rendered as the background.
pub proof fn lemma_never_hit_exhausts_crossing(
    m: Marcher,
    objects: Seq<Object>,
    s: March,
    fuel: nat,
)
    requires
        forall|k: nat|
            k < fuel ==> !m.spec_absorbed((#[trigger] m.spec_traj_crossing(objects, s, k)).x),
        forall|k: nat|
            k < fuel ==> !m.spec_hit_event_crossing(
                objects,
                #[trigger] m.spec_traj_crossing(objects, s, k),
            ),
    ensures
        m.spec_march_crossing(objects, s, fuel) == Outcome::Exhausted,
        m.spec_crossing_color(m.spec_march_crossing(objects, s, fuel)) == m.background,
    decreases fuel,
{
    if fuel == 0 {
    } else {
        assert(m.spec_traj_crossing(objects, s, 0) == s);
        lemma_quiet_step_advances_crossing(m, objects, s);
        let s1 = m.spec_phys(s);
        assert forall|k: nat| k < (fuel - 1) as nat implies !m.spec_absorbed(
            (#[trigger] m.spec_traj_crossing(objects, s1, k)).x,
        ) by {
            lemma_traj_crossing_shift(m, objects, s, k);
            assert(m.spec_traj_crossing(objects, s, (k + 1) as nat) == m.spec_traj_crossing(
                objects,
                s1,
                k,
            ));
        }
        assert forall|k: nat| k < (fuel - 1) as nat implies !m.spec_hit_event_crossing(
            objects,
            #[trigger] m.spec_traj_crossing(objects, s1, k),
        ) by {
            lemma_traj_crossing_shift(m, objects, s, k);
            assert(m.spec_traj_crossing(objects, s, (k + 1) as nat) == m.spec_traj_crossing(
                objects,
                s1,
                k,
            ));
        }
        lemma_never_hit_exhausts_crossing(m, objects, s1, (fuel - 1) as nat);
    }
}

/// A fixed-step trace over a path that never comes near the mass and never
/// crosses a surface within the budget returns the background.
pub proof fn lemma_miss_renders_background_crossing(m: Marcher, objects: Seq<Object>, ray: Ray)
    requires
        m.strategy == Strategy::FixedStep,
        forall|k: nat|
            k < m.budget ==> !m.spec_absorbed(
                (#[trigger] m.spec_traj_crossing(objects, m.spec_initial_crossing(ray), k)).x,
            ),
        forall|k: nat|
            k < m.budget ==> !m.spec_hit_event_crossing(
                objects,
                #[trigger] m.spec_traj_crossing(objects, m.spec_initial_crossing(ray), k),
            ),
    ensures
        m.spec_trace(objects, ray) == m.background,
{
    lemma_never_hit_exhausts_crossing(
        m,
        objects,
        m.spec_initial_crossing(ray),
        m.budget as nat,
    );
}

/// Under the fixed-step strategy a struck object is rendered in exactly its
/// own color, unmodified.
pub proof fn lemma_struck_color_exact(m: Marcher, o: Object, p: Vector)
    ensures
        m.spec_crossing_color(Outcome::Struck(o, p)) == o.color,
{
}

/// Tracing is a function of the scene and the ray alone: any two results
/// that meet `trace`'s contract on the same immutable scene and the same ray
/// are bit-identical, so tracing twice returns the same color.
pub proof fn lemma_trace_deterministic(
    m: Marcher,
    objects: Seq<Object>,
    ray: Ray,
    c1: crate::marcher::Color,
    c2: crate::marcher::Color,
)
    requires
        c1 == m.spec_trace(objects, ray),
        c2 == m.spec_trace(objects, ray),
    ensures
        c1 == c2,
{
}

/// A struck object is rendered in its own color or in its half-intensity
/// checkerboard companion, never in any other color.
pub proof fn lemma_struck_color_is_own(m: Marcher, o: Object, p: Vector)
    ensures
        m.spec_outcome_color(Outcome::Struck(o, p)) == o.color || m.spec_outcome_color(
            Outcome::Struck(o, p),
        ) == spec_vscale(o.color, FX_HALF),
{
    reveal(spec_shade);
}

} // verus!
