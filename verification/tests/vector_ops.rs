use blackhole_ray_marching::fixed::{FX_HALF, FX_ONE};
use blackhole_ray_marching::{Ray, ScenePcg, Vector};

#[test]
fn cross_follows_the_right_handed_formula() {
    let u = Vector::new(FX_ONE, 2 * FX_ONE, 3 * FX_ONE);
    let v = Vector::new(4 * FX_ONE, 5 * FX_ONE, 6 * FX_ONE);
    let c = u.cross(&v);
    assert_eq!(c, Vector::new(-3 * FX_ONE, 6 * FX_ONE, -3 * FX_ONE));
}

#[test]
fn dot_is_the_standard_inner_product() {
    let u = Vector::new(FX_ONE, 2 * FX_ONE, 3 * FX_ONE);
    let v = Vector::new(4 * FX_ONE, 5 * FX_ONE, 6 * FX_ONE);
    assert_eq!(u.dot(&v), 32 * FX_ONE);
}

#[test]
fn norms_of_a_pythagorean_triple() {
    let v = Vector::new(3 * FX_ONE, 4 * FX_ONE, 0);
    assert_eq!(v.norm_squared(), 25 * FX_ONE);
    assert_eq!(v.norm(), 5 * FX_ONE);
}

#[test]
fn normalization_yields_a_unit_axis() {
    let v = Vector::new(0, 0, 7 * FX_ONE);
    assert_eq!(v.normalized(), Vector::new(0, 0, FX_ONE));
}

#[test]
fn componentwise_arithmetic() {
    let a = Vector::new(FX_ONE, 2 * FX_ONE, -FX_ONE);
    let b = Vector::new(FX_ONE, FX_ONE, FX_ONE);
    assert_eq!(a.plus(&b), Vector::new(2 * FX_ONE, 3 * FX_ONE, 0));
    assert_eq!(a.minus(&b), Vector::new(0, FX_ONE, -2 * FX_ONE));
    assert_eq!(a.negated(), Vector::new(-FX_ONE, -2 * FX_ONE, FX_ONE));
    assert_eq!(a.scale(FX_HALF), Vector::new(FX_ONE / 2, FX_ONE, -FX_ONE / 2));
    assert_eq!(a.offset(FX_ONE), Vector::new(2 * FX_ONE, 3 * FX_ONE, 0));
    assert_eq!(a.x(), FX_ONE);
    assert_eq!(a.y(), 2 * FX_ONE);
    assert_eq!(a.z(), -FX_ONE);
}

#[test]
fn rays_keep_their_parts() {
    let r = Ray::new(Vector::new(1, 2, 3), Vector::new(4, 5, 6));
    assert_eq!(r.origin, Vector::new(1, 2, 3));
    assert_eq!(r.direction, Vector::new(4, 5, 6));
}

#[test]
fn unit_ball_draws_stay_inside() {
    let mut rng = ScenePcg::new(7);
    for _ in 0..50 {
        let v = Vector::random_in_unit_sphere(&mut rng);
        assert!(v.norm_squared() <= FX_ONE);
        assert!(-FX_ONE <= v.x() && v.x() <= FX_ONE);
        assert!(-FX_ONE <= v.y() && v.y() <= FX_ONE);
        assert!(-FX_ONE <= v.z() && v.z() <= FX_ONE);
    }
}

#[test]
fn generator_draws_respect_their_bounds() {
    let mut rng = ScenePcg::new(123);
    for _ in 0..200 {
        let u = rng.next_below(17);
        assert!(u < 17);
        let f = rng.next_fraction();
        assert!(0 <= f && f < FX_ONE);
        let s = rng.next_signed_unit();
        assert!(-FX_ONE <= s && s < FX_ONE);
    }
}

#[test]
fn seeded_generators_repeat_their_draws() {
    let mut a = ScenePcg::new(32);
    let mut b = ScenePcg::new(32);
    for _ in 0..20 {
        assert_eq!(a.next_below(1000), b.next_below(1000));
    }
}
