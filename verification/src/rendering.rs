//! Rays and their construction: the primary camera ray, mirror
//! reflections, and Snell-law transmissions.

use crate::fixed::{fx_div, fx_div_s, fx_mul, fx_mul_s, fx_neg, fx_neg_s, fx_sqrt, fx_sqrt_s, fx_sub, fx_sub_s, SCALE};
use crate::math::{Point, Vector3};
use crate::scene::{Scene, TWO_FX};
use vstd::prelude::*;

verus! {

/// A ray: an origin and a direction.  Construction routines normalize the
/// direction (up to fixed-point rounding); callers are expected not to
/// bypass them.
#[derive(Copy, Clone, Debug, PartialEq, Eq, Structural)]
pub struct Ray {
    pub origin: Point,
    pub direction: Vector3,
}

impl Ray {
    /// Model of `create_prime`.
    pub open spec fn create_prime_s(x: u32, y: u32, scene: Scene) -> Ray {
        let world_point = scene.pixel_to_world_s(x, y, fx_neg_s(SCALE));
        Ray {
            origin: Point { x: 0, y: 0, z: 0 },
            direction: world_point.as_vector_s().normalize_s(),
        }
    }

    /// Model of `create_reflection`: the incident direction mirrored
    /// about the normal, cast from the hit point nudged along the normal.
    pub open spec fn create_reflection_s(
        normal: Vector3,
        incident: Vector3,
        intersection: Point,
        bias: i64,
    ) -> Ray {
        Ray {
            origin: intersection.as_vector_s().add_s(normal.mul_s(bias)).as_point_s(),
            direction: incident.sub_s(normal.mul_s(incident.dot_s(normal)).mul_s(TWO_FX)),
        }
    }

    /// Model of `create_transmission`: Snell's law with the indices of
    /// refraction swapped when the ray leaves the medium; total internal
    /// reflection yields no ray.
    pub open spec fn create_transmission_s(
        normal: Vector3,
        incident: Vector3,
        intersection: Point,
        bias: i64,
        index: i64,
    ) -> Option<Ray> {
        let outside = incident.dot_s(normal) < 0;
        let ref_n = if outside {
            normal
        } else {
            normal.mul_s(fx_neg_s(SCALE))
        };
        let eta_i = if outside {
            SCALE
        } else {
            index
        };
        let eta_t = if outside {
            index
        } else {
            SCALE
        };
        let i_dot_n = if outside {
            fx_neg_s(incident.dot_s(normal))
        } else {
            incident.dot_s(normal)
        };
        let eta = fx_div_s(eta_i, eta_t);
        let k = fx_sub_s(
            SCALE,
            fx_mul_s(fx_mul_s(eta, eta), fx_sub_s(SCALE, fx_mul_s(i_dot_n, i_dot_n))),
        );
        if k < 0 {
            None
        } else {
            Some(
                Ray {
                    origin: intersection.as_vector_s().add_s(ref_n.mul_s(fx_neg_s(bias))).as_point_s(),
                    direction: incident.add_s(ref_n.mul_s(i_dot_n)).mul_s(eta).sub_s(
                        ref_n.mul_s(fx_sqrt_s(k)),
                    ),
                },
            )
        }
    }

    /// The primary ray through pixel `(x, y)`: unit direction from the
    /// world origin through the sensor point of that pixel.
    pub fn create_prime(x: u32, y: u32, scene: &Scene) -> (r: Ray)
        ensures
            r == Ray::create_prime_s(x, y, *scene),
    {
        let world_point: Point = scene.pixel_to_world_coordinates(x, y, fx_neg(SCALE));
        Ray { origin: Point::zero(), direction: world_point.as_vector().normalize() }
    }

    /// The mirror reflection of `incident` about `normal`, cast from the
    /// hit point nudged along the normal by `bias`.
    pub fn create_reflection(
        normal: Vector3,
        incident: &Vector3,
        intersection: &Point,
        bias: i64,
    ) -> (r: Ray)
        ensures
            r == Ray::create_reflection_s(normal, *incident, *intersection, bias),
    {
        Ray {
            origin: intersection.as_vector().add(&normal.mul(bias)).as_point(),
            direction: incident.sub(&normal.mul(incident.dot(&normal)).mul(TWO_FX)),
        }
    }

    /// The ray transmitted through a refractive surface, or nothing under
    /// total internal reflection.
    pub fn create_transmission(
        normal: Vector3,
        incident: Vector3,
        intersection: &Point,
        bias: i64,
        index: i64,
    ) -> (r: Option<Ray>)
        ensures
            r == Ray::create_transmission_s(normal, incident, *intersection, bias, index),
    {
        let mut ref_n: Vector3 = normal;
        let mut eta_t: i64 = index;
        let mut eta_i: i64 = SCALE;
        let mut i_dot_n: i64 = incident.dot(&normal);
        if i_dot_n < 0 {
            // Outside the surface.
            i_dot_n = fx_neg(i_dot_n);
        } else {
            // Inside the surface: invert the normal and swap the indices.
            ref_n = normal.mul(fx_neg(SCALE));
            eta_t = SCALE;
            eta_i = index;
        }
        let eta: i64 = fx_div(eta_i, eta_t);
        let k: i64 = fx_sub(
            SCALE,
            fx_mul(fx_mul(eta, eta), fx_sub(SCALE, fx_mul(i_dot_n, i_dot_n))),
        );
        if k < 0 {
            None
        } else {
            Some(
                Ray {
                    origin: intersection.as_vector().add(&ref_n.mul(fx_neg(bias))).as_point(),
                    direction: incident.add(&ref_n.mul(i_dot_n)).mul(eta).sub(
                        &ref_n.mul(fx_sqrt(k)),
                    ),
                },
            )
        }
    }
}

} // verus!
