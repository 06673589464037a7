//! A small ray tracer whose arithmetic is exact: every quantity is a
//! fixed-point number (an `i64` holding the value times 2^16), and every
//! executable function is verified to compute precisely the value given by
//! its specification-level model.
//!
//! The shading engine lives here: [`cast_ray`] traces a ray into the
//! scene, shades the nearest hit diffusely against every light (with
//! shadow tests), and recurses for reflective and refractive surfaces up
//! to the scene's recursion depth.  [`render`] applies it to every pixel.

pub mod color;
pub mod fixed;
pub mod math;
pub mod rendering;
pub mod scene;
pub mod test_scene;
pub mod trig;

use color::{black_s, to_byte_s, Color};
use fixed::{fx_div_s, fx_mul, fx_mul_s, fx_neg, fx_neg_s, fx_sub, fx_sub_s, SCALE};
use math::Vector3;
use rendering::Ray;
use scene::{Element, Intersectable, Intersection, Light, Scene, SurfaceType, TextureCoords};
use trig::{FOUR_PI_FX, PI_FX};
use vstd::prelude::*;

verus! {

/// The larger of a fixed-point value and zero.
pub open spec fn max0_s(v: i64) -> i64 {
    if v < 0 {
        0
    } else {
        v
    }
}

/// Model of one light's addition to the diffuse shading of a hit point:
/// the light's color scaled by the incidence angle, its intensity at the
/// point (zero when the shadow ray is blocked) and the surface's albedo
/// over pi, multiplied by the surface's own color.
pub open spec fn light_contribution_s(
    scene: Scene,
    element: Element,
    hit_point: Vector3,
    surface_normal: Vector3,
    tex: TextureCoords,
    light: Light,
) -> Color {
    let surface_color = element.material_s().color.color_s(tex);
    let shadow_origin = hit_point.add_s(surface_normal.mul_s(scene.shadow_bias)).as_point_s();
    let light_reflected = fx_div_s(element.albedo_s(), PI_FX);
    match light {
        Light::Directional(l) => {
            let direction_to_light = l.direction.normalize_s().mul_s(fx_neg_s(SCALE));
            let shadow_ray = Ray { origin: shadow_origin, direction: direction_to_light };
            let in_light = scene.trace_s(shadow_ray) is None;
            let light_intensity = if in_light {
                l.intensity
            } else {
                0
            };
            let light_power = fx_mul_s(
                max0_s(surface_normal.dot_s(direction_to_light)),
                light_intensity,
            );
            surface_color.mul_color_s(
                l.color.mul_scalar_s(light_power).mul_scalar_s(light_reflected),
            )
        },
        Light::Spherical(l) => {
            let to_light = l.position.sub_s(hit_point.as_point_s());
            let dist = to_light.length_s();
            let intensity_at = fx_div_s(l.intensity, fx_mul_s(FOUR_PI_FX, fx_mul_s(dist, dist)));
            let direction_to_light = to_light.normalize_s();
            let shadow_ray = Ray { origin: shadow_origin, direction: direction_to_light };
            let in_light = match scene.trace_s(shadow_ray) {
                Option::None => true,
                Option::Some(hit) => hit.distance >= l.position.distance_s(
                    hit_point.as_point_s(),
                ),
            };
            let light_intensity = if in_light {
                intensity_at
            } else {
                0
            };
            let light_power = fx_mul_s(
                max0_s(surface_normal.dot_s(direction_to_light)),
                light_intensity,
            );
            surface_color.mul_color_s(
                l.color.mul_scalar_s(light_power).mul_scalar_s(light_reflected),
            )
        },
    }
}

/// Model of the diffuse sum over the first `n` lights.
pub open spec fn shade_upto_s(
    scene: Scene,
    element: Element,
    hit_point: Vector3,
    surface_normal: Vector3,
    tex: TextureCoords,
    n: int,
) -> Color
    decreases n,
{
    if n <= 0 {
        black_s()
    } else {
        shade_upto_s(scene, element, hit_point, surface_normal, tex, n - 1).add_s(
            light_contribution_s(
                scene,
                element,
                hit_point,
                surface_normal,
                tex,
                scene.lights@[n - 1],
            ),
        )
    }
}

/// Model of `shade_diffuse`: every light's contribution summed, then
/// clamped to the displayable range.
pub open spec fn shade_diffuse_s(
    scene: Scene,
    element: Element,
    hit_point: Vector3,
    surface_normal: Vector3,
) -> Color {
    let tex = element.texture_coords_s(&hit_point.as_point_s());
    shade_upto_s(
        scene,
        element,
        hit_point,
        surface_normal,
        tex,
        scene.lights@.len() as int,
    ).clamp_s()
}

/// Model of `get_color`, the shading of one intersection: the diffuse
/// base, blended with a recursive reflection or transmission bounce
/// according to the surface type.  Outside the shader's domain (depth at
/// or past the recursion limit, where `cast_ray_s` never asks) it is
/// black.
pub open spec fn get_color_s(scene: Scene, ray: Ray, intersection: Intersection, depth: u32) -> Color
    decreases scene.max_recursion_depth - depth, 0int,
{
    if depth >= scene.max_recursion_depth {
        black_s()
    } else {
        let element = scene.elements@[intersection.object_index as int];
        let hit_point = ray.origin.as_vector_s().add_s(ray.direction.mul_s(intersection.distance));
        let surface_normal = element.surface_normal_s(&hit_point.as_point_s());
        let base = shade_diffuse_s(scene, element, hit_point, surface_normal);
        match element.material_s().surface_type {
            SurfaceType::Diffuse => base,
            SurfaceType::Reflective { reflectivity } => {
                let reflection_ray = Ray::create_reflection_s(
                    surface_normal,
                    ray.direction,
                    hit_point.as_point_s(),
                    scene.shadow_bias,
                );
                base.mul_scalar_s(fx_sub_s(SCALE, reflectivity)).add_s(
                    cast_ray_s(scene, reflection_ray, (depth + 1) as u32).mul_scalar_s(
                        reflectivity,
                    ),
                )
            },
            SurfaceType::Refractive { index, transparency } => {
                match Ray::create_transmission_s(
                    surface_normal,
                    ray.direction,
                    hit_point.as_point_s(),
                    scene.shadow_bias,
                    index,
                ) {
                    Option::Some(transmission_ray) => base.mul_scalar_s(
                        fx_sub_s(SCALE, transparency),
                    ).add_s(
                        cast_ray_s(scene, transmission_ray, (depth + 1) as u32).mul_scalar_s(
                            transparency,
                        ),
                    ),
                    Option::None => base,
                }
            },
        }
    }
}

/// Model of `cast_ray`: black at the recursion limit and on a miss,
/// otherwise the shading of the nearest hit.
pub open spec fn cast_ray_s(scene: Scene, ray: Ray, depth: u32) -> Color
    decreases scene.max_recursion_depth - depth, 1int,
{
    if depth >= scene.max_recursion_depth {
        black_s()
    } else {
        match scene.trace_s(ray) {
            Option::Some(hit) => get_color_s(scene, ray, hit, depth),
            Option::None => black_s(),
        }
    }
}

/// The color rendered for pixel `(x, y)`.
pub open spec fn render_pixel_s(scene: Scene, x: u32, y: u32) -> Color {
    cast_ray_s(scene, Ray::create_prime_s(x, y, scene), 0)
}

/// Position of pixel `(px, py)` in a row-major pixel buffer.
pub open spec fn pixel_index_s(width: u32, px: u32, py: u32) -> int {
    py * width + px
}

/// One light's addition to the diffuse shading of a hit point.
fn light_contribution(
    scene: &Scene,
    element: &Element,
    hit_point: Vector3,
    surface_normal: Vector3,
    tex: &TextureCoords,
    light: &Light,
) -> (r: Color)
    requires
        element.wf(),
    ensures
        r == light_contribution_s(*scene, *element, hit_point, surface_normal, *tex, *light),
{
    let surface_color: Color = element.material().color.color(tex);
    let shadow_origin = hit_point.add(&surface_normal.mul(scene.shadow_bias)).as_point();
    let light_reflected: i64 = fixed::fx_div(element.albedo(), PI_FX);
    match light {
        Light::Directional(l) => {
            let direction_to_light: Vector3 = l.direction.normalize().mul(fx_neg(SCALE));
            let shadow_ray = Ray { origin: shadow_origin, direction: direction_to_light };
            let in_light: bool = scene.trace(&shadow_ray).is_none();
            let light_intensity: i64 = if in_light {
                l.intensity
            } else {
                0
            };
            let d: i64 = surface_normal.dot(&direction_to_light);
            let light_power: i64 = fx_mul(
                if d < 0 {
                    0
                } else {
                    d
                },
                light_intensity,
            );
            surface_color.mul_color(
                &l.color.mul_scalar(light_power).mul_scalar(light_reflected),
            )
        },
        Light::Spherical(l) => {
            let to_light: Vector3 = l.position.sub(&hit_point.as_point());
            let dist: i64 = to_light.length();
            let intensity_at: i64 = fixed::fx_div(
                l.intensity,
                fx_mul(FOUR_PI_FX, fx_mul(dist, dist)),
            );
            let direction_to_light: Vector3 = to_light.normalize();
            let shadow_ray = Ray { origin: shadow_origin, direction: direction_to_light };
            let in_light: bool = match scene.trace(&shadow_ray) {
                Option::None => true,
                Option::Some(hit) => hit.distance >= l.position.distance(
                    &hit_point.as_point(),
                ),
            };
            let light_intensity: i64 = if in_light {
                intensity_at
            } else {
                0
            };
            let d: i64 = surface_normal.dot(&direction_to_light);
            let light_power: i64 = fx_mul(
                if d < 0 {
                    0
                } else {
                    d
                },
                light_intensity,
            );
            surface_color.mul_color(
                &l.color.mul_scalar(light_power).mul_scalar(light_reflected),
            )
        },
    }
}

/// Diffuse shading of a hit point: one contribution per light, summed and
/// clamped.
pub fn shade_diffuse(
    scene: &Scene,
    element: &Element,
    hit_point: Vector3,
    surface_normal: Vector3,
) -> (r: Color)
    requires
        element.wf(),
    ensures
        r == shade_diffuse_s(*scene, *element, hit_point, surface_normal),
{
    let tex: TextureCoords = element.texture_coords(&hit_point.as_point());
    let mut color: Color = Color::black();
    let nl: usize = scene.lights.len();
    let mut i: usize = 0;
    while i < nl
        invariant
            i <= nl,
            nl == scene.lights@.len(),
            element.wf(),
            tex == element.texture_coords_s(&hit_point.as_point_s()),
            color == shade_upto_s(*scene, *element, hit_point, surface_normal, tex, i as int),
        decreases nl - i,
    {
        let contribution: Color = light_contribution(
            scene,
            element,
            hit_point,
            surface_normal,
            &tex,
            &scene.lights[i],
        );
        color = color.add(&contribution);
        i = i + 1;
    }
    color.clamp()
}

/// Shade one intersection: the diffuse base blended with a recursive
/// reflection or transmission bounce according to the surface type.
fn get_color(scene: &Scene, ray: &Ray, intersection: &Intersection, depth: u32) -> (r: Color)
    requires
        scene.wf(),
        intersection.object_index < scene.elements@.len(),
        depth < scene.max_recursion_depth,
    ensures
        r == get_color_s(*scene, *ray, *intersection, depth),
    decreases scene.max_recursion_depth - depth, 0int,
{
    let element: &Element = &scene.elements[intersection.object_index];
    proof {
        assert(scene.elements@[intersection.object_index as int].wf());
    }
    let hit_point: Vector3 = ray.origin.as_vector().add(&ray.direction.mul(intersection.distance));
    let surface_normal: Vector3 = element.surface_normal(&hit_point.as_point());
    let base: Color = shade_diffuse(scene, element, hit_point, surface_normal);
    match &element.material().surface_type {
        SurfaceType::Diffuse => base,
        SurfaceType::Reflective { reflectivity } => {
            let reflection_ray: Ray = Ray::create_reflection(
                surface_normal,
                &ray.direction,
                &hit_point.as_point(),
                scene.shadow_bias,
            );
            let bounced: Color = cast_ray(scene, &reflection_ray, depth + 1);
            base.mul_scalar(fx_sub(SCALE, *reflectivity)).add(
                &bounced.mul_scalar(*reflectivity),
            )
        },
        SurfaceType::Refractive { index, transparency } => {
            match Ray::create_transmission(
                surface_normal,
                ray.direction,
                &hit_point.as_point(),
                scene.shadow_bias,
                *index,
            ) {
                Option::Some(transmission_ray) => {
                    let bounced: Color = cast_ray(scene, &transmission_ray, depth + 1);
                    base.mul_scalar(fx_sub(SCALE, *transparency)).add(
                        &bounced.mul_scalar(*transparency),
                    )
                },
                Option::None => base,
            }
        },
    }
}

/// Trace a ray into the scene and shade what it hits.  At or past the
/// scene's recursion limit the answer is black whatever the scene holds,
/// and so is a miss; the function is a pure function of its arguments.
pub fn cast_ray(scene: &Scene, ray: &Ray, depth: u32) -> (r: Color)
    requires
        scene.wf(),
    ensures
        r == cast_ray_s(*scene, *ray, depth),
        depth >= scene.max_recursion_depth ==> r == black_s(),
        scene.max_recursion_depth == 0 ==> r == black_s(),
    decreases scene.max_recursion_depth - depth, 1int,
{
    if depth >= scene.max_recursion_depth {
        return Color::black();
    }
    let intersection: Option<Intersection> = scene.trace(ray);
    match intersection {
        Option::Some(i) => get_color(scene, ray, &i, depth),
        Option::None => Color::black(),
    }
}

/// Tracing the same scene and ray twice yields bit-identical results:
/// `cast_ray`'s contract pins its result to a function of its arguments
/// alone, so there is no hidden state and any two results for equal
/// arguments coincide.
pub proof fn lemma_cast_ray_deterministic(
    first: Color,
    second: Color,
    scene: Scene,
    ray: Ray,
    depth: u32,
)
    requires
        first == cast_ray_s(scene, ray, depth),
        second == cast_ray_s(scene, ray, depth),
    ensures
        first == second,
{
}

/// Render the whole scene: one color per pixel, row-major.
pub fn render(scene: &Scene) -> (r: Vec<Color>)
    requires
        scene.wf(),
    ensures
        r@.len() == scene.width * scene.height,
        forall|px: u32, py: u32|
            px < scene.width && py < scene.height ==> r@[pixel_index_s(scene.width, px, py)]
                == #[trigger] render_pixel_s(*scene, px, py),
{
    let mut data: Vec<Color> = Vec::new();
    let mut y: u32 = 0;
    while y < scene.height
        invariant
            scene.wf(),
            y <= scene.height,
            data@.len() == y * scene.width,
            forall|px: u32, py: u32|
                px < scene.width && py < y ==> data@[pixel_index_s(scene.width, px, py)]
                    == #[trigger] render_pixel_s(*scene, px, py),
        decreases scene.height - y,
    {
        let mut x: u32 = 0;
        while x < scene.width
            invariant
                scene.wf(),
                x <= scene.width,
                y < scene.height,
                data@.len() == y * scene.width + x,
                forall|px: u32, py: u32|
                    px < scene.width && py < y ==> data@[pixel_index_s(scene.width, px, py)]
                        == #[trigger] render_pixel_s(*scene, px, py),
                forall|px: u32|
                    px < x ==> data@[pixel_index_s(scene.width, px, y)]
                        == #[trigger] render_pixel_s(*scene, px, y),
            decreases scene.width - x,
        {
            let ray: Ray = Ray::create_prime(x, y, scene);
            let color: Color = cast_ray(scene, &ray, 0);
            data.push(color);
            proof {
                assert forall|px: u32, py: u32|
                    px < scene.width && py < y implies pixel_index_s(scene.width, px, py)
                        < y as int * (scene.width as int) by {
                    assert(py as int * (scene.width as int) + (px as int) < y as int * (
                    scene.width as int)) by (nonlinear_arith)
                        requires
                            py < y,
                            px < scene.width,
                    ;
                };
            }
            x = x + 1;
        }
        proof {
            assert((y as int + 1) * (scene.width as int) == y as int * (scene.width as int)
                + scene.width as int) by (nonlinear_arith);
            assert forall|px: u32, py: u32|
                px < scene.width && py < y implies pixel_index_s(scene.width, px, py)
                    < y as int * (scene.width as int) by {
                assert(py as int * (scene.width as int) + (px as int) < y as int * (
                scene.width as int)) by (nonlinear_arith)
                    requires
                        py < y,
                        px < scene.width,
                ;
            };
            assert forall|px: u32, py: u32|
                px < scene.width && py < y + 1 implies data@[pixel_index_s(
                scene.width,
                px,
                py,
            )] == #[trigger] render_pixel_s(*scene, px, py) by {
                if py == y {
                    assert(py as int * (scene.width as int) == y as int * (scene.width as int))
                        by (nonlinear_arith)
                        requires
                            py == y,
                    ;
                    assert(pixel_index_s(scene.width, px, py) == pixel_index_s(scene.width, px, y));
                    assert(data@[pixel_index_s(scene.width, px, y)] == render_pixel_s(
                        *scene,
                        px,
                        y,
                    ));
                }
            };
        }
        y = y + 1;
    }
    proof {
        assert(scene.height as int * (scene.width as int) == scene.width as int * (
        scene.height as int)) by (nonlinear_arith);
    }
    data
}

/// A rendered image as raw bytes: four bytes (red, green, blue, alpha)
/// per pixel, row-major.
#[derive(Clone, Debug)]
pub struct ImageRawData {
    pub data: Vec<u8>,
    pub width: usize,
    pub height: usize,
}

/// Render the whole scene into raw image bytes.
pub fn render_to_image_data(scene: &Scene) -> (r: ImageRawData)
    requires
        scene.wf(),
    ensures
        r.width == scene.width,
        r.height == scene.height,
        r.data@.len() == 4 * scene.width * scene.height,
        forall|px: u32, py: u32|
            px < scene.width && py < scene.height ==> {
                let base = 4 * pixel_index_s(scene.width, px, py);
                let pixel = #[trigger] render_pixel_s(*scene, px, py);
                &&& r.data@[base] == to_byte_s(pixel.red)
                &&& r.data@[base + 1] == to_byte_s(pixel.green)
                &&& r.data@[base + 2] == to_byte_s(pixel.blue)
                &&& r.data@[base + 3] == 0u8
            },
{
    let mut data: Vec<u8> = Vec::new();
    let mut y: u32 = 0;
    while y < scene.height
        invariant
            scene.wf(),
            y <= scene.height,
            data@.len() == 4 * (y * scene.width),
            forall|px: u32, py: u32|
                px < scene.width && py < y ==> {
                    let base = 4 * pixel_index_s(scene.width, px, py);
                    let pixel = #[trigger] render_pixel_s(*scene, px, py);
                    &&& data@[base] == to_byte_s(pixel.red)
                    &&& data@[base + 1] == to_byte_s(pixel.green)
                    &&& data@[base + 2] == to_byte_s(pixel.blue)
                    &&& data@[base + 3] == 0u8
                },
        decreases scene.height - y,
    {
        let mut x: u32 = 0;
        while x < scene.width
            invariant
                scene.wf(),
                x <= scene.width,
                y < scene.height,
                data@.len() == 4 * (y * scene.width + x),
                forall|px: u32, py: u32|
                    px < scene.width && py < y ==> {
                        let base = 4 * pixel_index_s(scene.width, px, py);
                        let pixel = #[trigger] render_pixel_s(*scene, px, py);
                        &&& data@[base] == to_byte_s(pixel.red)
                        &&& data@[base + 1] == to_byte_s(pixel.green)
                        &&& data@[base + 2] == to_byte_s(pixel.blue)
                        &&& data@[base + 3] == 0u8
                    },
                forall|px: u32|
                    px < x ==> {
                        let base = 4 * pixel_index_s(scene.width, px, y);
                        let pixel = #[trigger] render_pixel_s(*scene, px, y);
                        &&& data@[base] == to_byte_s(pixel.red)
                        &&& data@[base + 1] == to_byte_s(pixel.green)
                        &&& data@[base + 2] == to_byte_s(pixel.blue)
                        &&& data@[base + 3] == 0u8
                    },
            decreases scene.width - x,
        {
            let ray: Ray = Ray::create_prime(x, y, scene);
            let color: Color = cast_ray(scene, &ray, 0);
            data.push(color::to_byte(color.red));
            data.push(color::to_byte(color.green));
            data.push(color::to_byte(color.blue));
            data.push(0u8);
            proof {
                assert forall|px: u32, py: u32|
                    px < scene.width && py < y implies pixel_index_s(scene.width, px, py)
                        < y as int * (scene.width as int) by {
                    assert(py as int * (scene.width as int) + (px as int) < y as int * (
                    scene.width as int)) by (nonlinear_arith)
                        requires
                            py < y,
                            px < scene.width,
                    ;
                };
            }
            x = x + 1;
        }
        proof {
            assert((y as int + 1) * (scene.width as int) == y as int * (scene.width as int)
                + scene.width as int) by (nonlinear_arith);
            assert forall|px: u32, py: u32|
                px < scene.width && py < y implies pixel_index_s(scene.width, px, py)
                    < y as int * (scene.width as int) by {
                assert(py as int * (scene.width as int) + (px as int) < y as int * (
                scene.width as int)) by (nonlinear_arith)
                    requires
                        py < y,
                        px < scene.width,
                ;
            };
            assert forall|px: u32, py: u32|
                px < scene.width && py < y + 1 implies {
                let base = 4 * pixel_index_s(scene.width, px, py);
                let pixel = #[trigger] render_pixel_s(*scene, px, py);
                &&& data@[base] == to_byte_s(pixel.red)
                &&& data@[base + 1] == to_byte_s(pixel.green)
                &&& data@[base + 2] == to_byte_s(pixel.blue)
                &&& data@[base + 3] == 0u8
            } by {
                if py == y {
                    assert(py as int * (scene.width as int) == y as int * (scene.width as int))
                        by (nonlinear_arith)
                        requires
                            py == y,
                    ;
                    assert(pixel_index_s(scene.width, px, py) == pixel_index_s(scene.width, px, y));
                    assert({
                        let base = 4 * pixel_index_s(scene.width, px, y);
                        let pixel = render_pixel_s(*scene, px, y);
                        &&& data@[base] == to_byte_s(pixel.red)
                        &&& data@[base + 1] == to_byte_s(pixel.green)
                        &&& data@[base + 2] == to_byte_s(pixel.blue)
                        &&& data@[base + 3] == 0u8
                    });
                }
            };
        }
        y = y + 1;
    }
    proof {
        assert(4 * (scene.height as int * (scene.width as int)) == 4 * (scene.width as int) * (
        scene.height as int)) by (nonlinear_arith);
    }
    ImageRawData { data, width: scene.width as usize, height: scene.height as usize }
}

} // verus!
