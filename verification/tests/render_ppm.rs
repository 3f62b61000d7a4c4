use blackhole_ray_marching::camera::{Camera, CameraBuilder, PinHoleCamera};
use blackhole_ray_marching::fixed::FX_ONE;
use blackhole_ray_marching::ppm::color_triple;
use blackhole_ray_marching::marcher::Strategy;
use blackhole_ray_marching::{Marcher, Object, ScenePcg, Sphere, Vector};

fn scene() -> Vec<Object> {
    vec![
        Object::new(
            Sphere::new(Vector::new(2 * FX_ONE, 3 * FX_ONE, 0), FX_ONE),
            Vector::new(FX_ONE, 26214, 26214),
        ),
        Object::new(
            Sphere::new(Vector::new(-FX_ONE, -FX_ONE, 3 * FX_ONE), FX_ONE),
            Vector::new(26214, FX_ONE, 26214),
        ),
        Object::new(
            Sphere::new(Vector::new(2 * FX_ONE, -3 * FX_ONE, -FX_ONE), FX_ONE),
            Vector::new(26214, 26214, FX_ONE),
        ),
    ]
}

fn camera() -> PinHoleCamera {
    CameraBuilder::new()
        .look_from(Vector::new(0, 0, -15 * FX_ONE))
        .loot_at(Vector::new(0, 0, 0))
        .vertical_field_of_view(60 * FX_ONE)
        .aspect_ratio(3 * FX_ONE / 2)
        .pin_hole()
}

fn marcher() -> Marcher {
    Marcher {
        strategy: Strategy::SphereTraced,
        mass: FX_ONE,
        center: Vector::new(32768, FX_ONE, 0),
        d_tau: FX_ONE / 4,
        budget: 80,
        checker_n: 8,
        background: Vector::new(0, 0, FX_ONE),
    }
}

fn render(width: u32) -> String {
    let cam = camera();
    let m = marcher();
    let world = scene();
    let mut rng = ScenePcg::new(32);
    let height = ((width as i64) * FX_ONE / cam.aspect_ratio()) as u32;
    let mut out = String::new();
    out.push_str("P3\n");
    out.push_str(&format!("{} {}\n", width, height));
    out.push_str("255\n");
    for y in (0..height).rev() {
        for x in 0..width {
            let u = blackhole_ray_marching::camera::pixel_coord(x, width);
            let v = blackhole_ray_marching::camera::pixel_coord(y, height);
            let ray = cam.get_ray(&mut rng, u, v);
            let color = m.trace(&world, &ray);
            let (r, g, b) = color_triple(&color);
            out.push_str(&format!("{} {} {}\n", r, g, b));
        }
    }
    out
}

#[test]
fn a_render_has_the_ppm_shape() {
    let width: u32 = 200;
    let ppm = render(width);
    let lines: Vec<&str> = ppm.lines().collect();
    assert_eq!(lines[0], "P3");
    let dims: Vec<u32> = lines[1]
        .split(' ')
        .map(|t| t.parse().unwrap())
        .collect();
    assert_eq!(dims[0], width);
    assert!(dims[1] > 0);
    assert_eq!(lines[2], "255");
    assert_eq!(lines.len(), 3 + (width as usize) * (dims[1] as usize));
    for line in &lines[3..] {
        let parts: Vec<&str> = line.split(' ').collect();
        assert_eq!(parts.len(), 3);
        for p in parts {
            let _: u8 = p.parse().unwrap();
        }
    }
    // the scene is not a blank frame: some pixel differs from the background
    let sky = {
        let (r, g, b) = color_triple(&Vector::new(0, 0, FX_ONE));
        format!("{} {} {}", r, g, b)
    };
    assert!(lines[3..].iter().any(|l| **l != *sky));
}

#[test]
fn renders_are_byte_identical() {
    // a narrow strip rendered twice: the whole pipeline is deterministic
    let once = render(20);
    let twice = render(20);
    assert_eq!(once, twice);
    assert!(once.into_bytes() == twice.into_bytes());
}
