//! Cameras: a view box derived from the look parameters, and a ray for each
//! normalized image coordinate. The tangent of the half field of view is
//! evaluated by a fixed-point polynomial; its contract is that polynomial.

use vstd::prelude::*;

use crate::fixed::{
    fx_add, fx_div, fx_div_int, fx_mul, fx_sub, spec_add, spec_div, spec_div_int, spec_mul,
    spec_sub, FX_HALF, FX_ONE, FX_TWO,
};
use crate::rng::ScenePcg;
use crate::vector::{
    spec_cross, spec_norm, spec_normalized, spec_vadd, spec_vscale, spec_vsub, Ray, Vector,
};

verus! {

/// Pi in fixed-point units, rounded down.
pub const PI_FX: i64 = 205887;

/// Sine by a four-term alternating polynomial, meant for `[0, pi/2]`:
/// `t - t^3/6 + t^5/120 - t^7/5040` over truncating fixed-point steps.
pub open spec fn spec_sin_poly(t: i64) -> i64 {
    let t2 = spec_mul(t, t);
    let t3 = spec_mul(t2, t);
    let t5 = spec_mul(t3, t2);
    let t7 = spec_mul(t5, t2);
    spec_sub(spec_add(spec_sub(t, spec_div_int(t3, 6)), spec_div_int(t5, 120)), spec_div_int(t7, 5040))
}

/// Cosine by a four-term alternating polynomial, meant for `[0, pi/2]`:
/// `1 - t^2/2 + t^4/24 - t^6/720` over truncating fixed-point steps.
pub open spec fn spec_cos_poly(t: i64) -> i64 {
    let t2 = spec_mul(t, t);
    let t4 = spec_mul(t2, t2);
    let t6 = spec_mul(t4, t2);
    spec_sub(spec_add(spec_sub(FX_ONE, spec_div_int(t2, 2)), spec_div_int(t4, 24)), spec_div_int(t6, 720))
}

pub fn sin_poly(t: i64) -> (r: i64)
    ensures
        r == spec_sin_poly(t),
{
    let t2 = fx_mul(t, t);
    let t3 = fx_mul(t2, t);
    let t5 = fx_mul(t3, t2);
    let t7 = fx_mul(t5, t2);
    fx_sub(fx_add(fx_sub(t, fx_div_int(t3, 6)), fx_div_int(t5, 120)), fx_div_int(t7, 5040))
}

pub fn cos_poly(t: i64) -> (r: i64)
    ensures
        r == spec_cos_poly(t),
{
    let t2 = fx_mul(t, t);
    let t4 = fx_mul(t2, t2);
    let t6 = fx_mul(t4, t2);
    fx_sub(fx_add(fx_sub(FX_ONE, fx_div_int(t2, 2)), fx_div_int(t4, 24)), fx_div_int(t6, 720))
}

/// Tangent of half the given angle in degrees: the angle is converted to
/// radians and halved, then sine over cosine. A cosine that truncates to
/// zero or below saturates the result, which only an extreme field of view
/// can reach.
pub open spec fn spec_tan_half_deg(deg: i64) -> i64 {
    let t = spec_div_int(spec_mul(deg, PI_FX), 360);
    let c = spec_cos_poly(t);
    if c <= 0 {
        i64::MAX
    } else {
        spec_div(spec_sin_poly(t), c)
    }
}

pub fn tan_half_deg(deg: i64) -> (r: i64)
    ensures
        r == spec_tan_half_deg(deg),
{
    let t = fx_div_int(fx_mul(deg, PI_FX), 360);
    let c = cos_poly(t);
    if c <= 0 {
        i64::MAX
    } else {
        fx_div(sin_poly(t), c)
    }
}

/// The derived view box: the two viewport spanning vectors and the lower
/// left corner of the focus plane.
pub open spec fn spec_view_box(
    look_from: Vector,
    loot_at: Vector,
    view_up: Vector,
    vertical_field_of_view: i64,
    aspect_ratio: i64,
    focus_dist: i64,
) -> (Vector, Vector, Vector) {
    let h = spec_tan_half_deg(vertical_field_of_view);
    let viewport_height = spec_mul(h, FX_TWO);
    let viewport_width = spec_mul(viewport_height, aspect_ratio);
    let w = spec_normalized(spec_vsub(look_from, loot_at));
    let u = spec_normalized(spec_cross(view_up, w));
    let v = spec_cross(w, u);
    let horizontal = spec_vscale(u, spec_mul(viewport_width, focus_dist));
    let vertical = spec_vscale(v, spec_mul(viewport_height, focus_dist));
    let lower_left_corner = spec_vsub(
        spec_vsub(spec_vsub(look_from, spec_vscale(horizontal, FX_HALF)), spec_vscale(vertical, FX_HALF)),
        spec_vscale(w, focus_dist),
    );
    (horizontal, vertical, lower_left_corner)
}

fn build_view_box(
    look_from: Vector,
    loot_at: Vector,
    view_up: Vector,
    vertical_field_of_view: i64,
    aspect_ratio: i64,
    focus_dist: i64,
) -> (r: (Vector, Vector, Vector))
    requires
        spec_norm(spec_vsub(look_from, loot_at)) > 0,
        spec_norm(spec_cross(view_up, spec_normalized(spec_vsub(look_from, loot_at)))) > 0,
    ensures
        r == spec_view_box(
            look_from,
            loot_at,
            view_up,
            vertical_field_of_view,
            aspect_ratio,
            focus_dist,
        ),
{
    let h = tan_half_deg(vertical_field_of_view);
    let viewport_height = fx_mul(h, FX_TWO);
    let viewport_width = fx_mul(viewport_height, aspect_ratio);
    let w = look_from.minus(&loot_at).normalized();
    let u = view_up.cross(&w).normalized();
    let v = w.cross(&u);
    let horizontal = u.scale(fx_mul(viewport_width, focus_dist));
    let vertical = v.scale(fx_mul(viewport_height, focus_dist));
    let lower_left_corner = look_from
        .minus(&horizontal.scale(FX_HALF))
        .minus(&vertical.scale(FX_HALF))
        .minus(&w.scale(focus_dist));
    (horizontal, vertical, lower_left_corner)
}

/// Gathers the look parameters; `pin_hole` or `blur` then builds a camera.
#[derive(Clone, Copy, Debug)]
pub struct CameraBuilder {
    pub look_from: Vector,
    pub loot_at: Vector,
    pub view_up: Vector,
    pub vertical_field_of_view: i64,
    pub aspect_ratio: i64,
}

impl CameraBuilder {
    /// The look parameters are legitimate: the eye is away from the target
    /// and the up reference is not parallel to the view direction.
    pub open spec fn wf(&self) -> bool {
        &&& spec_norm(spec_vsub(self.look_from, self.loot_at)) > 0
        &&& spec_norm(
            spec_cross(self.view_up, spec_normalized(spec_vsub(self.look_from, self.loot_at))),
        ) > 0
    }

    pub open spec fn spec_focus_dist(&self) -> i64 {
        spec_norm(spec_vsub(self.look_from, self.loot_at))
    }

    pub open spec fn spec_default() -> CameraBuilder {
        CameraBuilder {
            look_from: Vector { x: 0, y: 0, z: 0 },
            loot_at: Vector { x: 0, y: 0, z: -65536i64 },
            view_up: Vector { x: 0, y: FX_ONE, z: 0 },
            vertical_field_of_view: 5898240,
            aspect_ratio: spec_div_int(1048576, 9),
        }
    }

    pub fn new() -> (r: CameraBuilder)
        ensures
            r == Self::spec_default(),
    {
        CameraBuilder {
            look_from: Vector::new(0, 0, 0),
            loot_at: Vector::new(0, 0, -FX_ONE),
            view_up: Vector::new(0, FX_ONE, 0),
            vertical_field_of_view: 90 * FX_ONE,
            aspect_ratio: fx_div_int(16 * FX_ONE, 9),
        }
    }

    pub fn look_from(self, look_from: Vector) -> (r: Self)
        ensures
            r == (CameraBuilder { look_from, ..self }),
    {
        CameraBuilder { look_from, ..self }
    }

    pub fn loot_at(self, loot_at: Vector) -> (r: Self)
        ensures
            r == (CameraBuilder { loot_at, ..self }),
    {
        CameraBuilder { loot_at, ..self }
    }

    pub fn view_up(self, view_up: Vector) -> (r: Self)
        ensures
            r == (CameraBuilder { view_up, ..self }),
    {
        CameraBuilder { view_up, ..self }
    }

    pub fn vertical_field_of_view(self, vertical_field_of_view: i64) -> (r: Self)
        ensures
            r == (CameraBuilder { vertical_field_of_view, ..self }),
    {
        CameraBuilder { vertical_field_of_view, ..self }
    }

    pub fn aspect_ratio(self, aspect_ratio: i64) -> (r: Self)
        ensures
            r == (CameraBuilder { aspect_ratio, ..self }),
    {
        CameraBuilder { aspect_ratio, ..self }
    }

    pub fn focus_dist(&self) -> (r: i64)
        ensures
            r == self.spec_focus_dist(),
    {
        self.look_from.minus(&self.loot_at).norm()
    }

    pub open spec fn spec_pin_hole(self) -> PinHoleCamera {
        let (horizontal, vertical, lower_left_corner) = spec_view_box(
            self.look_from,
            self.loot_at,
            self.view_up,
            self.vertical_field_of_view,
            self.aspect_ratio,
            self.spec_focus_dist(),
        );
        PinHoleCamera { origin: self.look_from, horizontal, vertical, lower_left_corner }
    }

    pub fn pin_hole(self) -> (r: PinHoleCamera)
        requires
            self.wf(),
        ensures
            r == self.spec_pin_hole(),
    {
        let (horizontal, vertical, lower_left_corner) = build_view_box(
            self.look_from,
            self.loot_at,
            self.view_up,
            self.vertical_field_of_view,
            self.aspect_ratio,
            self.focus_dist(),
        );
        PinHoleCamera { origin: self.look_from, horizontal, vertical, lower_left_corner }
    }

    pub open spec fn spec_blur(self, aperture: i64) -> FiniteApertureCamera {
        let (horizontal, vertical, lower_left_corner) = spec_view_box(
            self.look_from,
            self.loot_at,
            self.view_up,
            self.vertical_field_of_view,
            self.aspect_ratio,
            self.spec_focus_dist(),
        );
        FiniteApertureCamera {
            origin: self.look_from,
            u: spec_normalized(horizontal),
            v: spec_normalized(vertical),
            horizontal,
            vertical,
            lower_left_corner,
            lens_radius: spec_mul(aperture, FX_HALF),
        }
    }

    /// The finite-aperture camera additionally needs spanning vectors of
    /// positive length, to carry a lens offset in their directions.
    pub fn blur(self, aperture: i64) -> (r: FiniteApertureCamera)
        requires
            self.wf(),
            spec_norm(
                spec_view_box(
                    self.look_from,
                    self.loot_at,
                    self.view_up,
                    self.vertical_field_of_view,
                    self.aspect_ratio,
                    self.spec_focus_dist(),
                ).0,
            ) > 0,
            spec_norm(
                spec_view_box(
                    self.look_from,
                    self.loot_at,
                    self.view_up,
                    self.vertical_field_of_view,
                    self.aspect_ratio,
                    self.spec_focus_dist(),
                ).1,
            ) > 0,
        ensures
            r == self.spec_blur(aperture),
    {
        let (horizontal, vertical, lower_left_corner) = build_view_box(
            self.look_from,
            self.loot_at,
            self.view_up,
            self.vertical_field_of_view,
            self.aspect_ratio,
            self.focus_dist(),
        );
        FiniteApertureCamera {
            origin: self.look_from,
            u: horizontal.normalized(),
            v: vertical.normalized(),
            horizontal,
            vertical,
            lower_left_corner,
            lens_radius: fx_mul(aperture, FX_HALF),
        }
    }
}

impl Default for CameraBuilder {
    fn default() -> (r: CameraBuilder)
        ensures
            r == CameraBuilder::spec_default(),
    {
        CameraBuilder::new()
    }
}

/// A camera with a point aperture: rays are deterministic.
#[derive(Clone, Copy, Debug)]
pub struct PinHoleCamera {
    pub origin: Vector,
    pub horizontal: Vector,
    pub vertical: Vector,
    pub lower_left_corner: Vector,
}

/// A camera with a thin lens: the ray origin is offset inside the lens disk.
#[derive(Clone, Copy, Debug)]
pub struct FiniteApertureCamera {
    pub origin: Vector,
    pub u: Vector,
    pub v: Vector,
    pub horizontal: Vector,
    pub vertical: Vector,
    pub lower_left_corner: Vector,
    pub lens_radius: i64,
}

/// The ray through the viewport point `(u, v)` from the given origin.
pub open spec fn spec_aimed_ray(
    origin: Vector,
    lower_left_corner: Vector,
    horizontal: Vector,
    vertical: Vector,
    u: i64,
    v: i64,
) -> Ray {
    Ray {
        origin,
        direction: spec_vsub(
            spec_vadd(spec_vadd(lower_left_corner, spec_vscale(horizontal, u)), spec_vscale(vertical, v)),
            origin,
        ),
    }
}

/// What both camera models expose: the view box, the aspect ratio it spans,
/// and a ray per image coordinate, pinned down by `spec_ray_ok`.
pub trait Camera {
    spec fn spec_horizontal(&self) -> Vector;

    spec fn spec_vertical(&self) -> Vector;

    spec fn spec_lower_left_corner(&self) -> Vector;

    /// Which rays the model may hand out at `(u, v)`.
    spec fn spec_ray_ok(&self, u: i64, v: i64, r: Ray) -> bool;

    fn horizontal(&self) -> (r: Vector)
        ensures
            r == self.spec_horizontal(),
    ;

    fn vertical(&self) -> (r: Vector)
        ensures
            r == self.spec_vertical(),
    ;

    fn lower_left_corner(&self) -> (r: Vector)
        ensures
            r == self.spec_lower_left_corner(),
    ;

    fn aspect_ratio(&self) -> (r: i64)
        requires
            spec_norm(self.spec_vertical()) > 0,
        ensures
            r == spec_div(spec_norm(self.spec_horizontal()), spec_norm(self.spec_vertical())),
    {
        fx_div(self.horizontal().norm(), self.vertical().norm())
    }

    fn get_ray(&self, rng: &mut ScenePcg, u: i64, v: i64) -> (r: Ray)
        ensures
            self.spec_ray_ok(u, v, r),
    ;
}

impl Camera for PinHoleCamera {
    open spec fn spec_horizontal(&self) -> Vector {
        self.horizontal
    }

    open spec fn spec_vertical(&self) -> Vector {
        self.vertical
    }

    open spec fn spec_lower_left_corner(&self) -> Vector {
        self.lower_left_corner
    }

    /// A pinhole ray is one exact ray: deterministic in `(u, v)`.
    open spec fn spec_ray_ok(&self, u: i64, v: i64, r: Ray) -> bool {
        r == spec_aimed_ray(
            self.origin,
            self.lower_left_corner,
            self.horizontal,
            self.vertical,
            u,
            v,
        )
    }

    fn horizontal(&self) -> (r: Vector) {
        self.horizontal
    }

    fn vertical(&self) -> (r: Vector) {
        self.vertical
    }

    fn lower_left_corner(&self) -> (r: Vector) {
        self.lower_left_corner
    }

    fn get_ray(&self, rng: &mut ScenePcg, u: i64, v: i64) -> (r: Ray) {
        Ray::new(
            self.origin,
            self.lower_left_corner
                .plus(&self.horizontal.scale(u))
                .plus(&self.vertical.scale(v))
                .minus(&self.origin),
        )
    }
}

impl FiniteApertureCamera {
    /// The ray for the lens offset `(dx, dy)` in draw units: the origin moves
    /// by the scaled offset inside the lens plane and the ray still aims at
    /// the same viewport point.
    pub open spec fn spec_offset_ray(&self, u: i64, v: i64, dx: i64, dy: i64) -> Ray {
        let ox = spec_mul(dx, self.lens_radius);
        let oy = spec_mul(dy, self.lens_radius);
        let origin = spec_vadd(spec_vadd(self.origin, spec_vscale(self.u, ox)), spec_vscale(self.v, oy));
        spec_aimed_ray(origin, self.lower_left_corner, self.horizontal, self.vertical, u, v)
    }
}

impl Camera for FiniteApertureCamera {
    open spec fn spec_horizontal(&self) -> Vector {
        self.horizontal
    }

    open spec fn spec_vertical(&self) -> Vector {
        self.vertical
    }

    open spec fn spec_lower_left_corner(&self) -> Vector {
        self.lower_left_corner
    }

    /// A thin-lens ray comes from some sampled offset inside the unit disk,
    /// and is otherwise the exact aimed ray for that offset.
    open spec fn spec_ray_ok(&self, u: i64, v: i64, r: Ray) -> bool {
        exists|dx: i64, dy: i64|
            {
                &&& -FX_ONE <= dx < FX_ONE
                &&& -FX_ONE <= dy < FX_ONE
                &&& spec_add(spec_mul(dx, dx), spec_mul(dy, dy)) <= FX_ONE
                &&& r == #[trigger] self.spec_offset_ray(u, v, dx, dy)
            }
    }

    fn horizontal(&self) -> (r: Vector) {
        self.horizontal
    }

    fn vertical(&self) -> (r: Vector) {
        self.vertical
    }

    fn lower_left_corner(&self) -> (r: Vector) {
        self.lower_left_corner
    }

    /// The lens offset is drawn by bounded rejection sampling; if every draw
    /// lands outside the disk, the lens centre is used.
    fn get_ray(&self, rng: &mut ScenePcg, u: i64, v: i64) -> (r: Ray) {
        let mut dx: i64 = 0;
        let mut dy: i64 = 0;
        let mut tries: u32 = 64;
        let mut found: bool = false;
        while !found && tries > 0
            invariant
                -FX_ONE <= dx < FX_ONE || dx == 0,
                -FX_ONE <= dy < FX_ONE || dy == 0,
                found ==> spec_add(spec_mul(dx, dx), spec_mul(dy, dy)) <= FX_ONE,
            decreases tries,
        {
            let cx = rng.next_signed_unit();
            let cy = rng.next_signed_unit();
            if fx_add(fx_mul(cx, cx), fx_mul(cy, cy)) <= FX_ONE {
                dx = cx;
                dy = cy;
                found = true;
            }
            tries = tries - 1;
        }
        if !found {
            dx = 0;
            dy = 0;
        }
        proof {
            if !found {
                vstd::arithmetic::div_mod::lemma_div_of0(65536);
                assert(spec_mul(0, 0) == 0);
                assert(spec_add(0, 0) == 0);
            }
        }
        let ox = fx_mul(dx, self.lens_radius);
        let oy = fx_mul(dy, self.lens_radius);
        let origin = self.origin.plus(&self.u.scale(ox)).plus(&self.v.scale(oy));
        let r = Ray::new(
            origin,
            self.lower_left_corner
                .plus(&self.horizontal.scale(u))
                .plus(&self.vertical.scale(v))
                .minus(&origin),
        );
        proof {
            assert(r == self.spec_offset_ray(u, v, dx, dy));
        }
        r
    }
}

/// The normalized image coordinate of index `i` out of `n`: `i / (n - 1)`.
pub fn pixel_coord(i: u32, n: u32) -> (r: i64)
    requires
        n >= 2,
    ensures
        r == (i as int) * FX_ONE / (n - 1) as int,
{
    ((i as i64) * 65536) / ((n - 1) as i64)
}

} // verus!
