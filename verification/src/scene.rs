//! The scene builder: three fixed spheres, then rejection-sampled ones that
//! keep clear of the central mass and of one another.

use vstd::prelude::*;

use crate::fixed::{
    fx_add, fx_mul, lemma_spec_mul_nonneg, lemma_tdiv_sym_bound, spec_add, spec_mul, FX_ONE,
    FX_TWO,
};
use crate::marcher::{Color, Object};
use crate::rng::ScenePcg;
use crate::sphere::Sphere;
use crate::vector::{spec_norm, spec_vsub, Vector};

verus! {

/// Some already placed object stands too close: the centre distance is under
/// the sum of the radii.
pub open spec fn spec_overlaps_any(objects: Seq<Object>, c: Vector, rad: i64) -> bool {
    exists|i: int|
        0 <= i < objects.len() && spec_norm(
            spec_vsub((#[trigger] objects[i]).sphere.center, c),
        ) < spec_add(objects[i].sphere.radius, rad)
}

/// Whether a candidate sphere overlaps any already placed object.
pub fn overlaps_any(objects: &Vec<Object>, c: Vector, rad: i64) -> (r: bool)
    ensures
        r == spec_overlaps_any(objects@, c, rad),
{
    let mut i: usize = 0;
    while i < objects.len()
        invariant
            i <= objects.len(),
            forall|j: int|
                0 <= j < i ==> !(spec_norm(
                    spec_vsub((#[trigger] objects@[j]).sphere.center, c),
                ) < spec_add(objects@[j].sphere.radius, rad)),
        decreases objects.len() - i,
    {
        if objects[i].sphere.center.minus(&c).norm() < fx_add(objects[i].sphere.radius, rad) {
            return true;
        }
        i = i + 1;
    }
    false
}

/// The pastel band every scene color lies in: each component is in
/// `[0.2, 1.0)` of full intensity.
pub open spec fn spec_pastel(c: i64) -> bool {
    13107 <= c <= 65535
}

proof fn lemma_pastel_bounds(c: i64)
    requires
        -65536 <= c <= 65536,
    ensures
        spec_pastel(spec_add(spec_mul(c, 26214), 39321)),
{
    lemma_tdiv_sym_bound(c * 26214, 65536, 26214);
}

/// A randomly perturbed pastel color: a draw from the unit ball scaled to
/// `0.4` and lifted by `0.6` in every component.
pub fn pastel_color(rng: &mut ScenePcg) -> (c: Color)
    ensures
        spec_pastel(c.x),
        spec_pastel(c.y),
        spec_pastel(c.z),
{
    let d = Vector::random_in_unit_sphere(rng);
    proof {
        lemma_pastel_bounds(d.x);
        lemma_pastel_bounds(d.y);
        lemma_pastel_bounds(d.z);
    }
    d.scale(26214).offset(39321)
}

/// Build the scene: three fixed unit spheres, then up to ten sampled
/// candidates. A candidate is dropped when it lies behind the depth cutoff,
/// when it would reach into the exclusion zone around the central mass, or
/// when it would overlap an already placed object; producing fewer objects
/// than attempts is no error. Every kept object is well formed, pastel, and
/// every sampled one keeps the stated clearances.
pub fn make_scene(rng: &mut ScenePcg, mass: i64, bh_center: Vector) -> (objects: Vec<Object>)
    requires
        mass >= 0,
    ensures
        3 <= objects@.len() <= 13,
        objects@[0].sphere == (Sphere {
            center: Vector { x: 131072, y: 196608, z: 0 },
            radius: FX_ONE,
        }),
        objects@[1].sphere == (Sphere {
            center: Vector { x: -65536i64, y: -65536i64, z: 196608 },
            radius: FX_ONE,
        }),
        objects@[2].sphere == (Sphere {
            center: Vector { x: 131072, y: -196608i64, z: -65536i64 },
            radius: FX_ONE,
        }),
        forall|i: int| 0 <= i < objects@.len() ==> (#[trigger] objects@[i]).sphere.wf(),
        forall|i: int|
            0 <= i < objects@.len() ==> spec_pastel((#[trigger] objects@[i]).color.x)
                && spec_pastel(objects@[i].color.y) && spec_pastel(objects@[i].color.z),
        forall|j: int|
            3 <= j < objects@.len() ==> (#[trigger] objects@[j]).sphere.center.z >= -655360i64,
        forall|j: int|
            3 <= j < objects@.len() ==> spec_norm(
                spec_vsub((#[trigger] objects@[j]).sphere.center, bh_center),
            ) >= spec_add(spec_mul(FX_TWO, mass), objects@[j].sphere.radius),
        forall|j: int|
            3 <= j < objects@.len() ==> !spec_overlaps_any(
                objects@.take(j),
                (#[trigger] objects@[j]).sphere.center,
                objects@[j].sphere.radius,
            ),
{
    let mut objects: Vec<Object> = Vec::new();
    objects.push(
        Object {
            sphere: Sphere::new(Vector::new(131072, 196608, 0), FX_ONE),
            color: pastel_color(rng),
        },
    );
    objects.push(
        Object {
            sphere: Sphere::new(Vector::new(-65536, -65536, 196608), FX_ONE),
            color: pastel_color(rng),
        },
    );
    objects.push(
        Object {
            sphere: Sphere::new(Vector::new(131072, -196608, -65536), FX_ONE),
            color: pastel_color(rng),
        },
    );
    let ghost base = objects@;
    let mut attempt: u32 = 0;
    while attempt < 10
        invariant
            mass >= 0,
            3 <= objects@.len() <= 3 + attempt,
            attempt <= 10,
            objects@[0] == base[0],
            objects@[1] == base[1],
            objects@[2] == base[2],
            base.len() == 3,
            base[0].sphere == (Sphere {
                center: Vector { x: 131072, y: 196608, z: 0 },
                radius: FX_ONE,
            }),
            base[1].sphere == (Sphere {
                center: Vector { x: -65536i64, y: -65536i64, z: 196608 },
                radius: FX_ONE,
            }),
            base[2].sphere == (Sphere {
                center: Vector { x: 131072, y: -196608i64, z: -65536i64 },
                radius: FX_ONE,
            }),
            forall|i: int| 0 <= i < objects@.len() ==> (#[trigger] objects@[i]).sphere.wf(),
            forall|i: int|
                0 <= i < objects@.len() ==> spec_pastel((#[trigger] objects@[i]).color.x)
                    && spec_pastel(objects@[i].color.y) && spec_pastel(objects@[i].color.z),
            forall|j: int|
                3 <= j < objects@.len() ==> (#[trigger] objects@[j]).sphere.center.z
                    >= -655360i64,
            forall|j: int|
                3 <= j < objects@.len() ==> spec_norm(
                    spec_vsub((#[trigger] objects@[j]).sphere.center, bh_center),
                ) >= spec_add(spec_mul(FX_TWO, mass), objects@[j].sphere.radius),
            forall|j: int|
                3 <= j < objects@.len() ==> !spec_overlaps_any(
                    objects@.take(j),
                    (#[trigger] objects@[j]).sphere.center,
                    objects@[j].sphere.radius,
                ),
        decreases 10 - attempt,
    {
        attempt = attempt + 1;
        let center = Vector::random_in_unit_sphere(rng).scale(458752);
        if center.z() < -655360 {
            continue ;
        }
        let frac = rng.next_fraction();
        let radius = fx_mul(frac, 196608);
        proof {
            lemma_spec_mul_nonneg(frac, 196608);
        }
        let exclusion = fx_add(fx_mul(FX_TWO, mass), radius);
        if center.minus(&bh_center).norm() < exclusion {
            continue ;
        }
        if overlaps_any(&objects, center, radius) {
            continue ;
        }
        let color = pastel_color(rng);
        let ghost before = objects@;
        objects.push(Object { sphere: Sphere { center, radius }, color });
        proof {
            assert(objects@.take(before.len() as int) =~= before);
            assert forall|j: int| 3 <= j < objects@.len() implies !spec_overlaps_any(
                objects@.take(j),
                (#[trigger] objects@[j]).sphere.center,
                objects@[j].sphere.radius,
            ) by {
                if j < before.len() {
                    assert(objects@.take(j) =~= before.take(j));
                    assert(objects@[j] == before[j]);
                } else {
                    assert(objects@.take(j) =~= before);
                }
            }
        }
    }
    objects
}

} // verus!
