use blackhole_ray_marching::camera::{tan_half_deg, Camera, CameraBuilder};
use blackhole_ray_marching::fixed::FX_ONE;
use blackhole_ray_marching::{ScenePcg, Vector};

#[test]
fn the_builder_keeps_what_it_is_given() {
    let b = CameraBuilder::new()
        .look_from(Vector::new(FX_ONE, 0, 0))
        .loot_at(Vector::new(0, 0, 0))
        .view_up(Vector::new(0, FX_ONE, 0))
        .vertical_field_of_view(60 * FX_ONE)
        .aspect_ratio(3 * FX_ONE / 2);
    assert_eq!(b.look_from, Vector::new(FX_ONE, 0, 0));
    assert_eq!(b.loot_at, Vector::new(0, 0, 0));
    assert_eq!(b.view_up, Vector::new(0, FX_ONE, 0));
    assert_eq!(b.vertical_field_of_view, 60 * FX_ONE);
    assert_eq!(b.aspect_ratio, 3 * FX_ONE / 2);
}

#[test]
fn the_half_angle_tangent_is_close_for_common_fields_of_view() {
    // tan(30 degrees) is about 0.57735, in raw units about 37837
    let t60 = tan_half_deg(60 * FX_ONE);
    assert!(37700 <= t60 && t60 <= 37990, "{}", t60);
    // tan(45 degrees) is 1
    let t90 = tan_half_deg(90 * FX_ONE);
    assert!(65300 <= t90 && t90 <= 65700, "{}", t90);
}

#[test]
fn pinhole_rays_start_at_the_eye_and_are_deterministic() {
    let cam = CameraBuilder::new()
        .look_from(Vector::new(0, 0, -15 * FX_ONE))
        .loot_at(Vector::new(0, 0, 0))
        .vertical_field_of_view(60 * FX_ONE)
        .aspect_ratio(3 * FX_ONE / 2)
        .pin_hole();
    let mut rng = ScenePcg::new(1);
    let r1 = cam.get_ray(&mut rng, FX_ONE / 2, FX_ONE / 2);
    let r2 = cam.get_ray(&mut rng, FX_ONE / 2, FX_ONE / 2);
    assert_eq!(r1, r2);
    assert_eq!(r1.origin, Vector::new(0, 0, -15 * FX_ONE));
    // the corner ray aims at the lower left corner itself
    let r0 = cam.get_ray(&mut rng, 0, 0);
    assert_eq!(
        r0.direction,
        cam.lower_left_corner().minus(&r0.origin),
    );
    // the centre ray of a symmetric view aims nearly along the view axis
    assert!(r1.direction.x().abs() <= 8);
    assert!(r1.direction.y().abs() <= 8);
    assert!(r1.direction.z() > 0);
}

#[test]
fn the_view_box_spans_the_viewport() {
    let cam = CameraBuilder::new()
        .look_from(Vector::new(0, 0, -15 * FX_ONE))
        .loot_at(Vector::new(0, 0, 0))
        .vertical_field_of_view(60 * FX_ONE)
        .aspect_ratio(3 * FX_ONE / 2)
        .pin_hole();
    // the spanning vectors are orthogonal up to truncation
    let dot = cam.horizontal().dot(&cam.vertical());
    assert!(dot.abs() <= FX_ONE, "{}", dot);
    // and their lengths stand in the aspect ratio, within rounding
    let ar = cam.aspect_ratio();
    assert!((ar - 3 * FX_ONE / 2).abs() <= 300, "{}", ar);
}

#[test]
fn lens_rays_aim_through_the_same_viewport_point() {
    let builder = CameraBuilder::new()
        .look_from(Vector::new(0, 0, -15 * FX_ONE))
        .loot_at(Vector::new(0, 0, 0))
        .vertical_field_of_view(60 * FX_ONE)
        .aspect_ratio(3 * FX_ONE / 2);
    let pin = builder.pin_hole();
    let cam = builder.blur(FX_ONE / 2);
    assert_eq!(cam.lens_radius, FX_ONE / 4);
    let mut rng = ScenePcg::new(9);
    for _ in 0..20 {
        let u = rng.next_fraction();
        let v = rng.next_fraction();
        let r = cam.get_ray(&mut rng, u, v);
        // the origin sits within the lens of the eye point
        let offset = r.origin.minus(&Vector::new(0, 0, -15 * FX_ONE));
        assert!(offset.norm() <= cam.lens_radius + 8);
        // origin plus direction is the aimed viewport point, the same the
        // pinhole model aims at
        let mut rng2 = ScenePcg::new(1);
        let p = pin.get_ray(&mut rng2, u, v);
        let aimed_pin = p.origin.plus(&p.direction);
        let aimed_lens = r.origin.plus(&r.direction);
        assert_eq!(aimed_pin, aimed_lens);
    }
}
