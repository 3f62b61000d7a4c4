use blackhole_ray_marching::fixed::{FX_HALF, FX_ONE};
use blackhole_ray_marching::marcher::Strategy;
use blackhole_ray_marching::{Marcher, Object, Ray, Sphere, Vector};

fn sky() -> Vector {
    Vector::new(0, 0, FX_ONE)
}

fn marcher(mass: i64, budget: u32) -> Marcher {
    Marcher {
        strategy: Strategy::SphereTraced,
        mass,
        center: Vector::new(0, 0, 0),
        d_tau: FX_ONE / 16,
        budget,
        checker_n: 8,
        background: sky(),
    }
}

fn fixed_step(mass: i64, budget: u32) -> Marcher {
    Marcher { strategy: Strategy::FixedStep, ..marcher(mass, budget) }
}

#[test]
fn a_ray_missing_everything_sees_the_background() {
    let m = marcher(FX_ONE, 2000);
    let objects: Vec<Object> = Vec::new();
    // aimed away from the mass, from far outside the absorption radius
    let ray = Ray::new(Vector::new(0, 0, -10 * FX_ONE), Vector::new(0, 0, -FX_ONE));
    assert_eq!(m.trace(&objects, &ray), sky());
}

#[test]
fn a_ray_into_the_mass_is_absorbed_despite_objects_beyond() {
    let m = marcher(FX_ONE, 4000);
    // an object sits behind the central mass, squarely on the ray's path
    let objects = vec![Object::new(
        Sphere::new(Vector::new(0, 0, 5 * FX_ONE), FX_ONE),
        Vector::new(FX_ONE, 0, 0),
    )];
    let ray = Ray::new(Vector::new(0, 0, -10 * FX_ONE), Vector::new(0, 0, FX_ONE));
    assert_eq!(m.trace(&objects, &ray), Vector::new(0, 0, 0));
}

#[test]
fn a_ray_at_an_object_centre_sees_that_object_or_its_companion() {
    // no mass, so the path is straight and nothing absorbs
    let m = marcher(0, 4000);
    let color = Vector::new(FX_ONE, 13107, 39321);
    let objects = vec![Object::new(
        Sphere::new(Vector::new(0, 0, 5 * FX_ONE), FX_ONE),
        color,
    )];
    let ray = Ray::new(Vector::new(0, 0, 0), Vector::new(0, 0, FX_ONE));
    let seen = m.trace(&objects, &ray);
    assert!(seen == color || seen == color.scale(FX_HALF));
}

#[test]
fn the_earliest_object_in_scene_order_wins_ties() {
    let m = marcher(0, 4000);
    let first = Vector::new(FX_ONE, 0, 0);
    let second = Vector::new(0, FX_ONE, 0);
    // two identical spheres: the earlier inserted one must be the one seen
    let sphere = Sphere::new(Vector::new(0, 0, 5 * FX_ONE), FX_ONE);
    let objects = vec![Object::new(sphere, first), Object::new(sphere, second)];
    let ray = Ray::new(Vector::new(0, 0, 0), Vector::new(0, 0, FX_ONE));
    let seen = m.trace(&objects, &ray);
    assert!(seen == first || seen == first.scale(FX_HALF));
}

#[test]
fn an_origin_inside_a_surface_is_black_at_once() {
    let m = marcher(FX_ONE, 1000);
    let objects: Vec<Object> = Vec::new();
    // the origin sits within the absorption radius of the central mass
    let ray = Ray::new(Vector::new(0, 0, FX_ONE), Vector::new(0, 0, FX_ONE));
    assert_eq!(m.trace(&objects, &ray), Vector::new(0, 0, 0));
}

#[test]
fn tracing_twice_is_bit_identical() {
    let m = marcher(FX_ONE, 1500);
    let objects = vec![Object::new(
        Sphere::new(Vector::new(2 * FX_ONE, 3 * FX_ONE, 0), FX_ONE),
        Vector::new(FX_ONE, FX_ONE, 0),
    )];
    let ray = Ray::new(
        Vector::new(0, 0, -15 * FX_ONE),
        Vector::new(4096, 8192, FX_ONE),
    );
    let once = m.trace(&objects, &ray);
    let twice = m.trace(&objects, &ray);
    assert_eq!(once, twice);
}

#[test]
fn with_no_mass_the_trajectory_is_a_straight_line() {
    let m = marcher(0, 1000);
    let objects: Vec<Object> = Vec::new();
    let origin = Vector::new(0, 0, -10 * FX_ONE);
    let ray = Ray::new(origin, Vector::new(0, 0, FX_ONE));
    // the normalized direction is the unit z axis; each step moves d_tau
    for steps in [1u32, 16, 64] {
        let p = m.trajectory_position(&objects, &ray, steps);
        let expected = Vector::new(0, 0, -10 * FX_ONE + (steps as i64) * (FX_ONE / 16));
        assert_eq!(p, expected);
    }
}

#[test]
fn shrinking_steps_converge_on_one_bent_path() {
    // a ray that passes the mass closely enough to bend visibly
    let objects: Vec<Object> = Vec::new();
    let origin = Vector::new(2 * FX_ONE, 0, -8 * FX_ONE);
    let ray = Ray::new(origin, Vector::new(0, 0, FX_ONE));
    let endpoint = |d_tau: i64, steps: u32| -> Vector {
        let m = Marcher {
            strategy: Strategy::SphereTraced,
            mass: FX_ONE,
            center: Vector::new(0, 0, 0),
            d_tau,
            budget: 100000,
            checker_n: 8,
            background: sky(),
        };
        m.trajectory_position(&objects, &ray, steps)
    };
    // the same total proper time with halving step sizes
    let e1 = endpoint(FX_ONE / 4, 64);
    let e2 = endpoint(FX_ONE / 8, 128);
    let e3 = endpoint(FX_ONE / 16, 256);
    let e4 = endpoint(FX_ONE / 32, 512);
    let d12 = e1.minus(&e2).norm();
    let d23 = e2.minus(&e3).norm();
    let d34 = e3.minus(&e4).norm();
    // differences between consecutive refinements shrink
    assert!(d23 < d12);
    assert!(d34 < d23);
}

#[test]
fn the_fixed_step_strategy_returns_the_exact_object_color() {
    let m = fixed_step(0, 4000);
    let color = Vector::new(FX_ONE, 13107, 39321);
    let objects = vec![Object::new(
        Sphere::new(Vector::new(0, 0, 5 * FX_ONE), FX_ONE),
        color,
    )];
    let ray = Ray::new(Vector::new(0, 0, 0), Vector::new(0, 0, FX_ONE));
    assert_eq!(m.trace(&objects, &ray), color);
}

#[test]
fn the_fixed_step_strategy_absorbs_before_any_crossing() {
    let m = fixed_step(FX_ONE, 4000);
    let objects = vec![Object::new(
        Sphere::new(Vector::new(0, 0, 5 * FX_ONE), FX_ONE),
        Vector::new(FX_ONE, 0, 0),
    )];
    let ray = Ray::new(Vector::new(0, 0, -10 * FX_ONE), Vector::new(0, 0, FX_ONE));
    assert_eq!(m.trace(&objects, &ray), Vector::new(0, 0, 0));
}

#[test]
fn the_fixed_step_strategy_runs_out_to_the_background() {
    let m = fixed_step(FX_ONE, 2000);
    let objects: Vec<Object> = Vec::new();
    let ray = Ray::new(Vector::new(0, 0, -10 * FX_ONE), Vector::new(0, 0, -FX_ONE));
    assert_eq!(m.trace(&objects, &ray), sky());
}

#[test]
fn both_strategies_are_deterministic() {
    let objects = vec![Object::new(
        Sphere::new(Vector::new(2 * FX_ONE, 3 * FX_ONE, 0), FX_ONE),
        Vector::new(FX_ONE, FX_ONE, 0),
    )];
    let ray = Ray::new(
        Vector::new(0, 0, -15 * FX_ONE),
        Vector::new(4096, 8192, FX_ONE),
    );
    for m in [marcher(FX_ONE, 1500), fixed_step(FX_ONE, 1500)] {
        assert_eq!(m.trace(&objects, &ray), m.trace(&objects, &ray));
    }
}
