use blackhole_ray_marching::fixed::{fx_add, FX_ONE, FX_TWO};
use blackhole_ray_marching::scene::make_scene;
use blackhole_ray_marching::{Hit, ScenePcg, Sphere, Vector};

#[test]
fn signed_distance_is_centre_distance_minus_radius() {
    let s = Sphere::new(Vector::new(0, 0, 0), FX_ONE);
    assert_eq!(s.signed_distance(Vector::new(2 * FX_ONE, 0, 0)), FX_ONE);
    assert_eq!(s.signed_distance(Vector::new(0, 0, 0)), -FX_ONE);
    assert_eq!(s.signed_distance(Vector::new(FX_ONE, 0, 0)), 0);
}

#[test]
fn crossing_means_entering_the_surface() {
    let s = Sphere::new(Vector::new(0, 0, 0), FX_ONE);
    let outside = Vector::new(3 * FX_ONE, 0, 0);
    let inside = Vector::new(0, 0, 0);
    assert!(s.hit(outside, inside));
    assert!(!s.hit(inside, outside));
    assert!(!s.hit(outside, Vector::new(4 * FX_ONE, 0, 0)));
    // a point on the surface counts on both sides
    let on = Vector::new(FX_ONE, 0, 0);
    assert!(s.hit(on, on));
}

#[test]
fn scenes_start_with_the_three_fixed_spheres() {
    let mut rng = ScenePcg::new(32);
    let objects = make_scene(&mut rng, FX_ONE, Vector::new(0, 0, 0));
    assert!(objects.len() >= 3);
    assert!(objects.len() <= 13);
    assert_eq!(objects[0].sphere.center, Vector::new(2 * FX_ONE, 3 * FX_ONE, 0));
    assert_eq!(objects[1].sphere.center, Vector::new(-FX_ONE, -FX_ONE, 3 * FX_ONE));
    assert_eq!(objects[2].sphere.center, Vector::new(2 * FX_ONE, -3 * FX_ONE, -FX_ONE));
    assert_eq!(objects[0].sphere.radius, FX_ONE);
    assert_eq!(objects[1].sphere.radius, FX_ONE);
    assert_eq!(objects[2].sphere.radius, FX_ONE);
}

#[test]
fn scene_objects_are_well_formed_and_pastel() {
    let mut rng = ScenePcg::new(99);
    let objects = make_scene(&mut rng, FX_ONE, Vector::new(0, 0, 0));
    for o in objects.iter() {
        assert!(o.sphere.radius >= 0);
        for c in [o.color.x(), o.color.y(), o.color.z()] {
            assert!(13107 <= c && c <= 65535);
        }
    }
}

#[test]
fn sampled_objects_keep_their_clearances() {
    let bh = Vector::new(0, 0, 0);
    let mass = FX_ONE;
    let mut rng = ScenePcg::new(5);
    let objects = make_scene(&mut rng, mass, bh);
    for j in 3..objects.len() {
        let c = objects[j].sphere.center;
        let r = objects[j].sphere.radius;
        // clear of the exclusion zone around the central mass
        let exclusion = fx_add(blackhole_ray_marching::fixed::fx_mul(FX_TWO, mass), r);
        assert!(c.minus(&bh).norm() >= exclusion);
        // clear of the depth cutoff
        assert!(c.z() >= -10 * FX_ONE);
        // clear of every earlier object
        for i in 0..j {
            let d = objects[i].sphere.center.minus(&c).norm();
            assert!(d >= fx_add(objects[i].sphere.radius, r));
        }
    }
}
