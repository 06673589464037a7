//! The scene: geometry primitives, materials, textures, lights, and the
//! nearest-intersection query.

use crate::color::Color;
use crate::fixed::{fx_add, fx_add_s, fx_div, fx_div_s, fx_mul, fx_mul_s, fx_neg, fx_neg_s, fx_sqrt, fx_sqrt_s, fx_sub, fx_sub_s, lemma_isqrt_unique, mag, SCALE};
use crate::math::{Point, Vector3};
use crate::rendering::Ray;
use crate::trig::{acos, acos_s, atan2, atan2_s, tan, tan_s, HALF_DEG_TO_RAD_FX, PI_FX};
use vstd::arithmetic::div_mod::{
    lemma_div_multiples_vanish, lemma_fundamental_div_mod, lemma_fundamental_div_mod_converse,
    lemma_mod_bound, lemma_mod_multiples_vanish,
};
use vstd::arithmetic::mul::lemma_mul_is_commutative;
use vstd::prelude::*;

verus! {

/// The fixed-point value one half.
pub const HALF_FX: i64 = 32768;

/// The fixed-point value two.
pub const TWO_FX: i64 = 131072;

/// A surface parametrization coordinate pair, in fixed-point texture
/// space where one unit spans the whole image.
#[derive(Copy, Clone, Debug, PartialEq, Eq, Structural)]
pub struct TextureCoords {
    pub x: i64,
    pub y: i64,
}

/// A decoded, in-memory image: the renderer never reads image files
/// itself, it samples a pixel grid handed in by the caller.
#[derive(Clone, Debug)]
pub struct Texture {
    pub width: u32,
    pub height: u32,
    /// Row-major pixel grid of exactly `width * height` entries.
    pub pixels: Vec<Color>,
}

impl Texture {
    /// The pixel grid matches the stated dimensions.
    pub open spec fn wf(self) -> bool {
        &&& self.width > 0
        &&& self.height > 0
        &&& self.pixels@.len() == self.width * self.height
    }

    pub open spec fn pixel_s(self, x: u32, y: u32) -> Color {
        self.pixels@[y * self.width + x]
    }

    /// Read one pixel of the grid.
    pub fn pixel(&self, x: u32, y: u32) -> (r: Color)
        requires
            self.wf(),
            x < self.width,
            y < self.height,
        ensures
            r == self.pixel_s(x, y),
    {
        let n: usize = self.pixels.len();
        proof {
            let yi = y as int;
            let xi = x as int;
            let wi = self.width as int;
            let hi = self.height as int;
            assert(yi * wi + xi < wi * hi) by (nonlinear_arith)
                requires
                    0 <= yi,
                    0 <= xi,
                    yi < hi,
                    xi < wi,
                    0 < wi,
            ;
            assert(n == wi * hi);
        }
        let idx: usize = (y as usize) * (self.width as usize) + (x as usize);
        self.pixels[idx]
    }
}

/// Euclidean remainder: the raw index brought into `0 .. bound` by
/// wrapping, so that out-of-range texture lookups repeat the image.
pub open spec fn wrap_s(raw: int, bound: int) -> int {
    raw % bound
}

/// The wrapped value lies in `0 .. bound`.
pub proof fn lemma_wrap_range(raw: int, bound: int)
    requires
        bound > 0,
    ensures
        0 <= wrap_s(raw, bound) < bound,
{
    lemma_mod_bound(raw, bound);
}

/// Wrapping is periodic: shifting the raw index by any whole number of
/// periods leaves the wrapped value unchanged.
pub proof fn lemma_wrap_periodic(raw: int, k: int, bound: int)
    requires
        bound > 0,
    ensures
        wrap_s(raw + k * bound, bound) == wrap_s(raw, bound),
{
    lemma_mul_is_commutative(k, bound);
    lemma_mod_multiples_vanish(k, raw, bound);
}

/// Bring a raw pixel index into `0 .. bound` by Euclidean wrapping;
/// negative indices wrap to the upper end of the range.
pub fn wrap(raw: i64, bound: u32) -> (r: u32)
    requires
        bound > 0,
    ensures
        r == wrap_s(raw as int, bound as int),
        r < bound,
{
    let b: u64 = bound as u64;
    if raw >= 0 {
        let m: u64 = (raw as u64) % b;
        proof {
            lemma_mod_bound(raw as int, b as int);
        }
        m as u32
    } else {
        let k: u64 = (-(raw as i128)) as u64;
        let m: u64 = k % b;
        proof {
            lemma_mod_bound(k as int, b as int);
            lemma_fundamental_div_mod(k as int, b as int);
            let q = k as int / b as int;
            if m == 0 {
                assert((-q) * (b as int) + 0 == raw as int) by (nonlinear_arith)
                    requires
                        k as int == (b as int) * q + 0,
                        raw as int == -(k as int),
                ;
                lemma_fundamental_div_mod_converse(raw as int, b as int, -q, 0);
            } else {
                assert((-q - 1) * (b as int) + ((b - m) as int) == raw as int)
                    by (nonlinear_arith)
                    requires
                        k as int == (b as int) * q + (m as int),
                        raw as int == -(k as int),
                        0 < m < b,
                ;
                lemma_fundamental_div_mod_converse(
                    raw as int,
                    b as int,
                    -q - 1,
                    (b - m) as int,
                );
            }
        }
        if m == 0 {
            0u32
        } else {
            (b - m) as u32
        }
    }
}

/// How a material gets its color: a constant, or a texture sampled at the
/// primitive's surface coordinates.
#[derive(Clone, Debug)]
pub enum Coloration {
    Color(Color),
    Texture(Texture),
}

impl Coloration {
    pub open spec fn wf(self) -> bool {
        match self {
            Coloration::Color(_) => true,
            Coloration::Texture(t) => t.wf(),
        }
    }

    /// Model of texture sampling: the coordinate scaled to a raw pixel
    /// index (truncated toward zero, as the executable scaling does) and
    /// wrapped into the image.
    pub open spec fn color_s(self, texture_coords: TextureCoords) -> Color {
        match self {
            Coloration::Color(c) => c,
            Coloration::Texture(t) => {
                let rx = fx_mul_s(texture_coords.x, t.width as i64);
                let ry = fx_mul_s(texture_coords.y, t.height as i64);
                t.pixel_s(
                    wrap_s(rx as int, t.width as int) as u32,
                    wrap_s(ry as int, t.height as int) as u32,
                )
            },
        }
    }

    /// Resolve the color at the given surface coordinates.
    pub fn color(&self, texture_coords: &TextureCoords) -> (r: Color)
        requires
            self.wf(),
        ensures
            r == self.color_s(*texture_coords),
    {
        match self {
            Coloration::Color(c) => *c,
            Coloration::Texture(texture) => {
                let rx: i64 = fx_mul(texture_coords.x, texture.width as i64);
                let ry: i64 = fx_mul(texture_coords.y, texture.height as i64);
                let tex_x: u32 = wrap(rx, texture.width);
                let tex_y: u32 = wrap(ry, texture.height);
                texture.pixel(tex_x, tex_y)
            },
        }
    }
}

/// How a surface scatters light beyond its diffuse term.
#[derive(Copy, Clone, Debug)]
pub enum SurfaceType {
    Diffuse,
    Reflective { reflectivity: i64 },
    Refractive { index: i64, transparency: i64 },
}

#[derive(Clone, Debug)]
pub struct Material {
    pub color: Coloration,
    pub albedo: i64,
    pub surface_type: SurfaceType,
}

impl Material {
    /// The coloration is usable and the scalar parameters lie in their
    /// documented ranges: the albedo in (0, 1], a reflectivity or
    /// transparency in [0, 1], a refractive index of at least one.
    pub open spec fn wf(self) -> bool {
        &&& self.color.wf()
        &&& 0 < self.albedo <= SCALE
        &&& match self.surface_type {
            SurfaceType::Diffuse => true,
            SurfaceType::Reflective { reflectivity } => 0 <= reflectivity <= SCALE,
            SurfaceType::Refractive { index, transparency } => index >= SCALE && 0 <= transparency
                <= SCALE,
        }
    }
}

#[derive(Clone, Debug)]
pub struct Sphere {
    pub center: Point,
    pub radius: i64,
    pub material: Material,
}

#[derive(Clone, Debug)]
pub struct Plane {
    pub p0: Point,
    /// Stored plane normal.  By the renderer's convention the *inward*
    /// facing normal used for shading is this vector inverted; see
    /// `surface_normal`.
    pub normal: Vector3,
    pub material: Material,
}

/// The closed set of geometry primitives.
#[derive(Clone, Debug)]
pub enum Element {
    Sphere(Sphere),
    Plane(Plane),
}

impl Element {
    pub open spec fn wf(self) -> bool {
        match self {
            Element::Sphere(s) => s.radius > 0 && s.material.wf(),
            Element::Plane(p) => p.material.wf(),
        }
    }

    pub open spec fn material_s(self) -> Material {
        match self {
            Element::Sphere(s) => s.material,
            Element::Plane(p) => p.material,
        }
    }

    pub open spec fn albedo_s(self) -> i64 {
        self.material_s().albedo
    }

    pub fn material(&self) -> (r: &Material)
        ensures
            *r == self.material_s(),
    {
        match self {
            Element::Sphere(s) => &s.material,
            Element::Plane(p) => &p.material,
        }
    }

    pub fn albedo(&self) -> (r: i64)
        ensures
            r == self.albedo_s(),
    {
        match self {
            Element::Sphere(s) => s.material.albedo,
            Element::Plane(p) => p.material.albedo,
        }
    }

    /// The shading normal at a point of the surface; the same dispatch as
    /// `surface_normal`.
    pub fn normal(&self, point: &Point) -> (r: Vector3)
        ensures
            r == self.surface_normal_s(point),
    {
        match self {
            Element::Sphere(s) => s.surface_normal(point),
            Element::Plane(p) => p.surface_normal(point),
        }
    }
}

/// Operations every primitive supports, each tied to its spec-level
/// model: the intersection distance along a ray, the shading normal at a
/// hit point, and the surface parametrization at a hit point.
pub trait Intersectable {
    /// Model of `intersect`.
    spec fn intersect_s(&self, ray: &Ray) -> Option<i64>;

    /// Model of `surface_normal`.
    spec fn surface_normal_s(&self, hit_point: &Point) -> Vector3;

    /// Model of `texture_coords`.
    spec fn texture_coords_s(&self, hit_point: &Point) -> TextureCoords;

    /// Distance along the ray to the nearest hit in front of the origin,
    /// or nothing on a miss.
    fn intersect(&self, ray: &Ray) -> (r: Option<i64>)
        ensures
            r == self.intersect_s(ray),
    ;

    /// The shading normal at a point of the surface.
    fn surface_normal(&self, hit_point: &Point) -> (r: Vector3)
        ensures
            r == self.surface_normal_s(hit_point),
    ;

    /// The surface parametrization at a point of the surface.
    fn texture_coords(&self, hit_point: &Point) -> (r: TextureCoords)
        ensures
            r == self.texture_coords_s(hit_point),
    ;
}

impl Intersectable for Sphere {
    /// The geometric method: project the vector to the center onto the
    /// ray, compare the squared perpendicular distance with the squared
    /// radius, and take the nearer non-negative root — for a ray starting
    /// inside the sphere that is the far wall.
    open spec fn intersect_s(&self, ray: &Ray) -> Option<i64> {
        let l = self.center.sub_s(ray.origin);
        let hyp_sq = l.sq_length_s();
        let a = l.dot_s(ray.direction);
        let d2 = fx_sub_s(hyp_sq, fx_mul_s(a, a));
        let r2 = fx_mul_s(self.radius, self.radius);
        if d2 > r2 {
            None
        } else {
            let q = fx_sqrt_s(fx_sub_s(r2, d2));
            let t0 = fx_sub_s(a, q);
            let t1 = fx_add_s(a, q);
            if t0 < 0 && t1 < 0 {
                None
            } else {
                Some(
                    if t0 >= 0 {
                        t0
                    } else {
                        t1
                    },
                )
            }
        }
    }

    /// The unit vector from the center through the hit point.
    open spec fn surface_normal_s(&self, hit_point: &Point) -> Vector3 {
        hit_point.sub_s(self.center).normalize_s()
    }

    /// Longitude/latitude mapping of the hit point.
    open spec fn texture_coords_s(&self, hit_point: &Point) -> TextureCoords {
        let hit_vec = hit_point.sub_s(self.center);
        TextureCoords {
            x: fx_mul_s(
                fx_add_s(SCALE, fx_div_s(atan2_s(hit_vec.z, hit_vec.x), PI_FX)),
                HALF_FX,
            ),
            y: fx_div_s(acos_s(fx_div_s(hit_vec.y, self.radius)), PI_FX),
        }
    }

    fn intersect(&self, ray: &Ray) -> (r: Option<i64>) {
        let l: Vector3 = self.center.sub(&ray.origin);
        let hyp_sq: i64 = l.sq_length();
        let a: i64 = l.dot(&ray.direction);
        let d2: i64 = fx_sub(hyp_sq, fx_mul(a, a));
        let r2: i64 = fx_mul(self.radius, self.radius);
        if d2 > r2 {
            return None;
        }
        let q: i64 = fx_sqrt(fx_sub(r2, d2));
        let t0: i64 = fx_sub(a, q);
        let t1: i64 = fx_add(a, q);
        if t0 < 0 && t1 < 0 {
            return None;
        }
        Some(
            if t0 >= 0 {
                t0
            } else {
                t1
            },
        )
    }

    fn surface_normal(&self, hit_point: &Point) -> (r: Vector3) {
        hit_point.sub(&self.center).normalize()
    }

    fn texture_coords(&self, hit_point: &Point) -> (r: TextureCoords) {
        let hit_vec: Vector3 = hit_point.sub(&self.center);
        TextureCoords {
            x: fx_mul(fx_add(SCALE, fx_div(atan2(hit_vec.z, hit_vec.x), PI_FX)), HALF_FX),
            y: fx_div(acos(fx_div(hit_vec.y, self.radius)), PI_FX),
        }
    }
}

impl Intersectable for Plane {
    /// The standard ray/plane formula; a denominator of zero (the ray
    /// runs parallel to the plane, to fixed-point precision) or a
    /// negative solution is a miss.  A ray whose origin lies exactly in
    /// the plane (numerator zero) hits only when it crosses toward the
    /// stored normal's side (denominator positive): leaving the plane
    /// behind is a miss, not a hit at distance zero.
    open spec fn intersect_s(&self, ray: &Ray) -> Option<i64> {
        let denom = self.normal.dot_s(ray.direction);
        if denom == 0 {
            None
        } else {
            let h = self.p0.sub_s(ray.origin);
            let nh = self.normal.dot_s(h);
            if nh == 0 {
                if denom > 0 {
                    Some(0)
                } else {
                    None
                }
            } else {
                let dist = fx_div_s(nh, denom);
                if dist >= 0 {
                    Some(dist)
                } else {
                    None
                }
            }
        }
    }

    /// The stored normal inverted: shading consumes the face turned
    /// toward the incoming ray.
    open spec fn surface_normal_s(&self, hit_point: &Point) -> Vector3 {
        self.normal.mul_s(fx_neg_s(SCALE))
    }

    /// Projection of the hit point onto an orthonormal basis spanning
    /// the plane; the first reference axis is replaced when the normal
    /// is parallel to it.
    open spec fn texture_coords_s(&self, hit_point: &Point) -> TextureCoords {
        let first = self.normal.cross_s(Vector3 { x: SCALE, y: 0, z: 0 });
        let x_axis = if first.length_s() == 0 {
            self.normal.cross_s(Vector3 { x: 0, y: SCALE, z: 0 })
        } else {
            first
        };
        let y_axis = x_axis.cross_s(self.normal);
        let pv = hit_point.as_vector_s();
        TextureCoords { x: pv.dot_s(x_axis), y: pv.dot_s(y_axis) }
    }

    fn intersect(&self, ray: &Ray) -> (r: Option<i64>) {
        let denom: i64 = self.normal.dot(&ray.direction);
        if denom == 0 {
            return None;
        }
        let h: Vector3 = self.p0.sub(&ray.origin);
        let nh: i64 = self.normal.dot(&h);
        if nh == 0 {
            return if denom > 0 {
                Some(0)
            } else {
                None
            };
        }
        let dist: i64 = fx_div(nh, denom);
        if dist >= 0 {
            Some(dist)
        } else {
            None
        }
    }

    fn surface_normal(&self, hit_point: &Point) -> (r: Vector3) {
        self.normal.mul(fx_neg(SCALE))
    }

    fn texture_coords(&self, hit_point: &Point) -> (r: TextureCoords) {
        let first: Vector3 = self.normal.cross(&Vector3 { x: SCALE, y: 0, z: 0 });
        let x_axis: Vector3 = if first.length() == 0 {
            self.normal.cross(&Vector3 { x: 0, y: SCALE, z: 0 })
        } else {
            first
        };
        let y_axis: Vector3 = x_axis.cross(&self.normal);
        let pv: Vector3 = hit_point.as_vector();
        TextureCoords { x: pv.dot(&x_axis), y: pv.dot(&y_axis) }
    }
}

impl Intersectable for Element {
    open spec fn intersect_s(&self, ray: &Ray) -> Option<i64> {
        match self {
            Element::Sphere(s) => s.intersect_s(ray),
            Element::Plane(p) => p.intersect_s(ray),
        }
    }

    open spec fn surface_normal_s(&self, hit_point: &Point) -> Vector3 {
        match self {
            Element::Sphere(s) => s.surface_normal_s(hit_point),
            Element::Plane(p) => p.surface_normal_s(hit_point),
        }
    }

    open spec fn texture_coords_s(&self, hit_point: &Point) -> TextureCoords {
        match self {
            Element::Sphere(s) => s.texture_coords_s(hit_point),
            Element::Plane(p) => p.texture_coords_s(hit_point),
        }
    }

    fn intersect(&self, ray: &Ray) -> (r: Option<i64>) {
        match self {
            Element::Sphere(s) => s.intersect(ray),
            Element::Plane(p) => p.intersect(ray),
        }
    }

    fn surface_normal(&self, hit_point: &Point) -> (r: Vector3) {
        match self {
            Element::Sphere(s) => s.surface_normal(hit_point),
            Element::Plane(p) => p.surface_normal(hit_point),
        }
    }

    fn texture_coords(&self, hit_point: &Point) -> (r: TextureCoords) {
        match self {
            Element::Sphere(s) => s.texture_coords(hit_point),
            Element::Plane(p) => p.texture_coords(hit_point),
        }
    }
}

/// A successful ray hit: the distance along the ray and the index of the
/// hit element in the scene's element list.  An intersection is never
/// built with a non-positive distance.
#[derive(Copy, Clone, Debug, PartialEq, Eq, Structural)]
pub struct Intersection {
    pub distance: i64,
    pub object_index: usize,
}

impl Intersection {
    /// Build an intersection record; the distance must be positive.
    pub fn new(distance: i64, object_index: usize) -> (r: Intersection)
        requires
            distance > 0,
        ensures
            r == (Intersection { distance, object_index }),
    {
        Intersection { distance, object_index }
    }
}

/// A light shining from a fixed direction, infinitely far away.
#[derive(Clone, Debug)]
pub struct DirectionalLight {
    pub direction: Vector3,
    pub color: Color,
    pub intensity: i64,
}

/// A point light radiating equally in all directions.
#[derive(Clone, Debug)]
pub struct SphericalLight {
    pub position: Point,
    pub color: Color,
    pub intensity: i64,
}

#[derive(Clone, Debug)]
pub enum Light {
    Directional(DirectionalLight),
    Spherical(SphericalLight),
}

/// The immutable description of what to render.
#[derive(Clone, Debug)]
pub struct Scene {
    pub width: u32,
    pub height: u32,
    /// Field of view in fixed-point degrees.
    pub fov: i64,
    pub lights: Vec<Light>,
    pub elements: Vec<Element>,
    /// Offset applied along the surface normal to secondary-ray origins,
    /// so a surface does not immediately shadow itself.
    pub shadow_bias: i64,
    pub max_recursion_depth: u32,
}

impl Scene {
    pub open spec fn wf(self) -> bool {
        &&& self.width > 0
        &&& self.height > 0
        &&& self.width >= self.height
        &&& forall|i: int|
            0 <= i < self.elements@.len() ==> #[trigger] self.elements@[i].wf()
    }

    /// An empty scene with the given camera and rendering parameters.
    pub fn new(
        width: u32,
        height: u32,
        fov: i64,
        shadow_bias: i64,
        max_recursion_depth: u32,
    ) -> (r: Scene)
        ensures
            r.width == width,
            r.height == height,
            r.fov == fov,
            r.shadow_bias == shadow_bias,
            r.max_recursion_depth == max_recursion_depth,
            r.lights@ =~= Seq::<Light>::empty(),
            r.elements@ =~= Seq::<Element>::empty(),
    {
        Scene {
            width,
            height,
            fov,
            lights: Vec::new(),
            elements: Vec::new(),
            shadow_bias,
            max_recursion_depth,
        }
    }

    /// Model of `pixel_to_world_coordinates`: the pixel center mapped to
    /// normalized device coordinates, scaled by the aspect ratio (x only)
    /// and by the tangent of half the field of view.
    pub open spec fn pixel_to_world_s(self, px: u32, py: u32, z: i64) -> Point {
        let fov_adjustment = tan_s(fx_mul_s(self.fov, HALF_DEG_TO_RAD_FX));
        let w_fx = (self.width * SCALE) as i64;
        let h_fx = (self.height * SCALE) as i64;
        let px_c = (px * SCALE + HALF_FX) as i64;
        let py_c = (py * SCALE + HALF_FX) as i64;
        let aspect_ratio = fx_div_s(w_fx, h_fx);
        Point {
            x: fx_mul_s(
                fx_mul_s(fx_sub_s(fx_mul_s(fx_div_s(px_c, w_fx), TWO_FX), SCALE), aspect_ratio),
                fov_adjustment,
            ),
            y: fx_mul_s(fx_sub_s(SCALE, fx_mul_s(fx_div_s(py_c, h_fx), TWO_FX)), fov_adjustment),
            z,
        }
    }

    /// Map the center of pixel `(px, py)` to a point on the sensor plane
    /// at depth `z`, in camera space.
    pub fn pixel_to_world_coordinates(&self, px: u32, py: u32, z: i64) -> (r: Point)
        ensures
            r == self.pixel_to_world_s(px, py, z),
    {
        let fov_adjustment: i64 = tan(fx_mul(self.fov, HALF_DEG_TO_RAD_FX));
        let w_fx: i64 = (self.width as i64) * SCALE;
        let h_fx: i64 = (self.height as i64) * SCALE;
        let px_c: i64 = (px as i64) * SCALE + HALF_FX;
        let py_c: i64 = (py as i64) * SCALE + HALF_FX;
        let aspect_ratio: i64 = fx_div(w_fx, h_fx);
        let sensor_x: i64 = fx_mul(
            fx_mul(fx_sub(fx_mul(fx_div(px_c, w_fx), TWO_FX), SCALE), aspect_ratio),
            fov_adjustment,
        );
        let sensor_y: i64 = fx_mul(fx_sub(SCALE, fx_mul(fx_div(py_c, h_fx), TWO_FX)), fov_adjustment);
        Point { x: sensor_x, y: sensor_y, z }
    }

    /// Model of `trace` restricted to the first `n` elements: the first
    /// strictly-nearest positive hit wins; later hits replace it only
    /// when strictly nearer.
    pub open spec fn trace_upto_s(self, ray: Ray, n: int) -> Option<Intersection>
        decreases n,
    {
        if n <= 0 {
            None
        } else {
            let prev = self.trace_upto_s(ray, n - 1);
            match self.elements@[n - 1].intersect_s(&ray) {
                Some(d) => {
                    if d > 0 && (prev is None || d < prev->Some_0.distance) {
                        Some(Intersection { distance: d, object_index: (n - 1) as usize })
                    } else {
                        prev
                    }
                },
                None => prev,
            }
        }
    }

    /// Model of `trace`: the nearest positive hit over all elements.
    pub open spec fn trace_s(self, ray: Ray) -> Option<Intersection> {
        self.trace_upto_s(ray, self.elements@.len() as int)
    }

    /// Find the nearest intersection of the ray with any element; `None`
    /// when every element misses.
    pub fn trace(&self, ray: &Ray) -> (r: Option<Intersection>)
        ensures
            r == self.trace_s(*ray),
            r matches Some(hit) ==> 0 < hit.distance && hit.object_index
                < self.elements@.len(),
            self.elements@.len() == 0 ==> r is None,
    {
        let n: usize = self.elements.len();
        let mut best: Option<Intersection> = None;
        let mut i: usize = 0;
        while i < n
            invariant
                i <= n,
                n == self.elements@.len(),
                best == self.trace_upto_s(*ray, i as int),
            decreases n - i,
        {
            let cand: Option<i64> = self.elements[i].intersect(ray);
            if let Some(d) = cand {
                if d > 0 {
                    let take: bool = match &best {
                        Option::None => true,
                        Option::Some(b) => d < b.distance,
                    };
                    if take {
                        best = Some(Intersection::new(d, i));
                    }
                }
            }
            i = i + 1;
        }
        proof {
            lemma_trace_upto_valid(*self, *ray, n as int);
        }
        best
    }

    /// Append an element; everything else is unchanged.
    pub fn add_element(&mut self, element: Element)
        ensures
            final(self).elements@ == old(self).elements@.push(element),
            final(self).lights@ == old(self).lights@,
            final(self).width == old(self).width,
            final(self).height == old(self).height,
            final(self).fov == old(self).fov,
            final(self).shadow_bias == old(self).shadow_bias,
            final(self).max_recursion_depth == old(self).max_recursion_depth,
    {
        self.elements.push(element);
    }

    /// Append a light; everything else is unchanged.
    pub fn add_light(&mut self, light: Light)
        ensures
            final(self).lights@ == old(self).lights@.push(light),
            final(self).elements@ == old(self).elements@,
            final(self).width == old(self).width,
            final(self).height == old(self).height,
            final(self).fov == old(self).fov,
            final(self).shadow_bias == old(self).shadow_bias,
            final(self).max_recursion_depth == old(self).max_recursion_depth,
    {
        self.lights.push(light);
    }
}

/// A ray aimed straight at the center of a sphere ahead of it hits the
/// sphere at the distance to the center less the radius.  The bounds keep
/// every intermediate fixed-point value exact: the radius is a multiple
/// of 256 (so its square is a multiple of `SCALE`) and the distance stays
/// well below the saturation range.
pub proof fn lemma_sphere_axial_hit(sphere: Sphere, ray: Ray, d: i64, r: i64)
    requires
        0 < r < d,
        d <= 0x8000000000,
        r % 256 == 0,
        sphere.center.x == 0,
        sphere.center.y == 0,
        sphere.center.z == -(d as int),
        sphere.radius == r,
        ray.origin.x == 0,
        ray.origin.y == 0,
        ray.origin.z == 0,
        ray.direction.x == 0,
        ray.direction.y == 0,
        ray.direction.z == -(SCALE as int),
    ensures
        sphere.intersect_s(&ray) == Some((d - r) as i64),
{
    let l = sphere.center.sub_s(ray.origin);
    assert(l.x == 0 && l.y == 0 && l.z == -(d as int));
    // Dot product of l with the ray direction: only the z term is nonzero.
    assert((l.x as int) * (ray.direction.x as int) == 0) by (nonlinear_arith)
        requires
            l.x == 0,
    ;
    assert((l.y as int) * (ray.direction.y as int) == 0) by (nonlinear_arith)
        requires
            l.y == 0,
    ;
    assert((l.z as int) * (ray.direction.z as int) == (d as int) * (SCALE as int))
        by (nonlinear_arith)
        requires
            l.z == -(d as int),
            ray.direction.z == -(SCALE as int),
    ;
    crate::fixed::lemma_tdiv_scale_exact(0);
    crate::fixed::lemma_tdiv_scale_exact(d as int);
    assert(fx_mul_s(l.z, ray.direction.z) == d);
    let a = l.dot_s(ray.direction);
    assert(a == d);
    // Squared length of l and square of a are the same exact value.
    let dd = (d as int) * (d as int);
    assert((l.z as int) * (l.z as int) == dd) by (nonlinear_arith)
        requires
            l.z == -(d as int),
            dd == (d as int) * (d as int),
    ;
    assert(0 <= dd <= 0x40000000000000000000) by (nonlinear_arith)
        requires
            0 < d <= 0x8000000000,
            dd == (d as int) * (d as int),
    ;
    let q1 = crate::fixed::tdiv(dd, SCALE as int);
    assert(0 <= q1 <= 0x4000000000000000) by {
        vstd::arithmetic::div_mod::lemma_div_pos_is_pos(dd, SCALE as int);
        vstd::arithmetic::div_mod::lemma_div_is_ordered(dd, 0x40000000000000000000, SCALE as int);
    };
    let hyp_sq = l.sq_length_s();
    assert(fx_mul_s(l.z, l.z) == q1);
    assert(hyp_sq == q1);
    assert(fx_mul_s(a, a) == q1);
    let d2 = fx_sub_s(hyp_sq, fx_mul_s(a, a));
    assert(d2 == 0);
    // The squared radius is exact because 256 * 256 == SCALE.
    let m = (r as int) / 256;
    lemma_fundamental_div_mod(r as int, 256);
    assert(r as int == 256 * m);
    assert(1 <= m <= 0x80000000) by (nonlinear_arith)
        requires
            r as int == 256 * m,
            0 < r <= 0x8000000000,
    ;
    let mm = m * m;
    assert((r as int) * (r as int) == mm * (SCALE as int)) by (nonlinear_arith)
        requires
            r as int == 256 * m,
            mm == m * m,
    ;
    crate::fixed::lemma_tdiv_scale_exact(mm);
    assert(1 <= mm <= 0x4000000000000000) by (nonlinear_arith)
        requires
            1 <= m <= 0x80000000,
            mm == m * m,
    ;
    let r2 = fx_mul_s(sphere.radius, sphere.radius);
    assert(r2 == mm);
    assert(!(d2 > r2));
    // The thickness of the chord is exactly the radius.
    let q2 = fx_sub_s(r2, d2);
    assert(q2 == mm);
    assert((q2 as int) * (SCALE as int) == (r as int) * (r as int)) by (nonlinear_arith)
        requires
            q2 as int == m * m,
            r as int == 256 * m,
    ;
    assert((r as int) * (r as int) < ((r + 1) as int) * ((r + 1) as int)) by (nonlinear_arith)
        requires
            r > 0,
    ;
    lemma_isqrt_unique(((r as int) * (r as int)) as nat, r as nat);
    assert(fx_sqrt_s(q2) == r);
    let q = fx_sqrt_s(q2);
    let t0 = fx_sub_s(a, q);
    let t1 = fx_add_s(a, q);
    assert(t0 == d - r);
    assert(t1 == d + r);
    assert(t0 > 0);
    assert(sphere.intersect_s(&ray) == Some((d - r) as i64));
}

/// A ray aimed perpendicular to the axis through a sphere's center
/// misses the sphere.  Distance and radius are multiples of 256, which
/// keeps both squared lengths exact.
pub proof fn lemma_sphere_perpendicular_miss(sphere: Sphere, ray: Ray, d: i64, r: i64)
    requires
        0 < r < d,
        d <= 0x8000000000,
        r % 256 == 0,
        d % 256 == 0,
        sphere.center.x == 0,
        sphere.center.y == 0,
        sphere.center.z == -(d as int),
        sphere.radius == r,
        ray.origin.x == 0,
        ray.origin.y == 0,
        ray.origin.z == 0,
        ray.direction.x == SCALE as int,
        ray.direction.y == 0,
        ray.direction.z == 0,
    ensures
        sphere.intersect_s(&ray) is None,
{
    let l = sphere.center.sub_s(ray.origin);
    assert(l.x == 0 && l.y == 0 && l.z == -(d as int));
    // The projection of l onto the ray direction is zero.
    assert((l.x as int) * (ray.direction.x as int) == 0) by (nonlinear_arith)
        requires
            l.x == 0,
    ;
    assert((l.y as int) * (ray.direction.y as int) == 0) by (nonlinear_arith)
        requires
            l.y == 0,
    ;
    assert((l.z as int) * (ray.direction.z as int) == 0) by (nonlinear_arith)
        requires
            ray.direction.z == 0,
    ;
    crate::fixed::lemma_tdiv_scale_exact(0);
    let a = l.dot_s(ray.direction);
    assert(a == 0);
    // Both squares are exact: d and r are multiples of 256.
    let k = (d as int) / 256;
    lemma_fundamental_div_mod(d as int, 256);
    assert(d as int == 256 * k);
    let m = (r as int) / 256;
    lemma_fundamental_div_mod(r as int, 256);
    assert(r as int == 256 * m);
    let kk = k * k;
    let mm = m * m;
    assert((l.z as int) * (l.z as int) == kk * (SCALE as int)) by (nonlinear_arith)
        requires
            l.z == -(d as int),
            d as int == 256 * k,
            kk == k * k,
    ;
    assert((r as int) * (r as int) == mm * (SCALE as int)) by (nonlinear_arith)
        requires
            r as int == 256 * m,
            mm == m * m,
    ;
    assert(1 <= m < k <= 0x80000000 && mm < kk <= 0x4000000000000000) by (nonlinear_arith)
        requires
            d as int == 256 * k,
            r as int == 256 * m,
            0 < r < d <= 0x8000000000,
            kk == k * k,
            mm == m * m,
    ;
    crate::fixed::lemma_tdiv_scale_exact(kk);
    crate::fixed::lemma_tdiv_scale_exact(mm);
    let hyp_sq = l.sq_length_s();
    assert(hyp_sq == kk);
    assert(fx_mul_s(a, a) == 0);
    let d2 = fx_sub_s(hyp_sq, fx_mul_s(a, a));
    assert(d2 == kk);
    let r2 = fx_mul_s(sphere.radius, sphere.radius);
    assert(r2 == mm);
    assert(d2 > r2);
    assert(sphere.intersect_s(&ray) is None);
}

/// A plane facing the camera is hit by the ray cast straight at it at
/// exactly the plane's depth — at depth zero, where the ray origin lies
/// in the plane, at distance zero — and missed by the ray cast the
/// other way, at every depth.
pub proof fn lemma_plane_frontal(plane: Plane, toward: Ray, away: Ray, w: i64)
    requires
        0 <= w <= 0x8000000000,
        plane.p0.x == 0,
        plane.p0.y == 0,
        plane.p0.z == -(w as int),
        plane.normal.x == 0,
        plane.normal.y == 0,
        plane.normal.z == -(SCALE as int),
        toward.origin.x == 0,
        toward.origin.y == 0,
        toward.origin.z == 0,
        toward.direction.x == 0,
        toward.direction.y == 0,
        toward.direction.z == -(SCALE as int),
        away.origin == toward.origin,
        away.direction.x == 0,
        away.direction.y == 0,
        away.direction.z == SCALE as int,
    ensures
        plane.intersect_s(&toward) == Some(w),
        plane.intersect_s(&away) is None,
{
    let n = plane.normal;
    // Denominators: the ray directions are anti-parallel and parallel to
    // the normal.
    assert((n.z as int) * (toward.direction.z as int) == (SCALE as int) * (SCALE as int))
        by (nonlinear_arith)
        requires
            n.z == -(SCALE as int),
            toward.direction.z == -(SCALE as int),
    ;
    assert((n.z as int) * (away.direction.z as int) == -((SCALE as int) * (SCALE as int)))
        by (nonlinear_arith)
        requires
            n.z == -(SCALE as int),
            away.direction.z == SCALE as int,
    ;
    assert((n.x as int) * (toward.direction.x as int) == 0) by (nonlinear_arith)
        requires
            n.x == 0,
    ;
    assert((n.y as int) * (toward.direction.y as int) == 0) by (nonlinear_arith)
        requires
            n.y == 0,
    ;
    assert((n.x as int) * (away.direction.x as int) == 0) by (nonlinear_arith)
        requires
            n.x == 0,
    ;
    assert((n.y as int) * (away.direction.y as int) == 0) by (nonlinear_arith)
        requires
            n.y == 0,
    ;
    crate::fixed::lemma_tdiv_scale_exact(0);
    crate::fixed::lemma_tdiv_scale_exact(SCALE as int);
    crate::fixed::lemma_tdiv_scale_exact(-(SCALE as int));
    let denom_toward = n.dot_s(toward.direction);
    let denom_away = n.dot_s(away.direction);
    assert(denom_toward == SCALE);
    assert(denom_away == -(SCALE as int));
    // The offset from the ray origin to the plane point, projected on
    // the normal, is exactly the depth.
    let h = plane.p0.sub_s(toward.origin);
    assert(h.x == 0 && h.y == 0 && h.z == -(w as int));
    assert((n.z as int) * (h.z as int) == (w as int) * (SCALE as int)) by (nonlinear_arith)
        requires
            n.z == -(SCALE as int),
            h.z == -(w as int),
    ;
    assert((n.x as int) * (h.x as int) == 0) by (nonlinear_arith)
        requires
            n.x == 0,
    ;
    assert((n.y as int) * (h.y as int) == 0) by (nonlinear_arith)
        requires
            n.y == 0,
    ;
    crate::fixed::lemma_tdiv_scale_exact(w as int);
    let nh = n.dot_s(h);
    assert(nh == w);
    if w == 0 {
        // The ray origin lies in the plane: the forward crossing is a
        // hit at distance zero, the backward one a miss.
        assert(plane.intersect_s(&toward) == Some(w));
        assert(plane.intersect_s(&away) is None);
    } else {
        // Toward the plane the distance is the depth itself.
        assert(mag(nh as int) * (SCALE as int) == (w as int) * (SCALE as int));
        lemma_mul_is_commutative(SCALE as int, w as int);
        lemma_div_multiples_vanish(w as int, SCALE as int);
        assert(fx_div_s(nh, denom_toward) == w);
        assert(plane.intersect_s(&toward) == Some(w));
        // Away from the plane the distance is negative, hence a miss.
        assert(fx_div_s(nh, denom_away) == -(w as int));
        assert(plane.intersect_s(&away) is None);
    }
}

/// Every hit reported while scanning the first `n` elements has a
/// positive distance and an index among those elements.
pub proof fn lemma_trace_upto_valid(scene: Scene, ray: Ray, n: int)
    requires
        0 <= n <= scene.elements@.len(),
    ensures
        scene.trace_upto_s(ray, n) matches Some(hit) ==> 0 < hit.distance
            && hit.object_index < n,
    decreases n,
{
    if n > 0 {
        lemma_trace_upto_valid(scene, ray, n - 1);
    }
}

} // verus!
