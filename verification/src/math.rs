//! 3D vectors and points over fixed-point scalars.
//!
//! `Point` and `Vector3` are distinct types with the same coordinates:
//! subtracting two points yields a vector.  Every executable operation
//! returns exactly the value of its `_s` spec counterpart.

use crate::fixed::{fx_add, fx_add_s, fx_div, fx_div_s, fx_mul, fx_mul_s, fx_sqrt, fx_sqrt_s, fx_sub, fx_sub_s};
use vstd::prelude::*;

verus! {

#[derive(Copy, Clone, Debug, PartialEq, Eq, Structural)]
pub struct Vector3 {
    pub x: i64,
    pub y: i64,
    pub z: i64,
}

#[derive(Copy, Clone, Debug, PartialEq, Eq, Structural)]
pub struct Point {
    pub x: i64,
    pub y: i64,
    pub z: i64,
}

impl Vector3 {
    pub open spec fn add_s(self, other: Vector3) -> Vector3 {
        Vector3 {
            x: fx_add_s(self.x, other.x),
            y: fx_add_s(self.y, other.y),
            z: fx_add_s(self.z, other.z),
        }
    }

    pub open spec fn sub_s(self, other: Vector3) -> Vector3 {
        Vector3 {
            x: fx_sub_s(self.x, other.x),
            y: fx_sub_s(self.y, other.y),
            z: fx_sub_s(self.z, other.z),
        }
    }

    pub open spec fn mul_s(self, factor: i64) -> Vector3 {
        Vector3 {
            x: fx_mul_s(self.x, factor),
            y: fx_mul_s(self.y, factor),
            z: fx_mul_s(self.z, factor),
        }
    }

    pub open spec fn dot_s(self, other: Vector3) -> i64 {
        fx_add_s(
            fx_add_s(fx_mul_s(self.x, other.x), fx_mul_s(self.y, other.y)),
            fx_mul_s(self.z, other.z),
        )
    }

    pub open spec fn sq_length_s(self) -> i64 {
        self.dot_s(self)
    }

    pub open spec fn length_s(self) -> i64 {
        fx_sqrt_s(self.sq_length_s())
    }

    /// Model of `normalize`: each component divided by the length; a
    /// zero-length vector maps to the zero vector (callers are expected to
    /// pass vectors of non-zero length).
    pub open spec fn normalize_s(self) -> Vector3 {
        let len = self.length_s();
        Vector3 {
            x: fx_div_s(self.x, len),
            y: fx_div_s(self.y, len),
            z: fx_div_s(self.z, len),
        }
    }

    pub open spec fn cross_s(self, other: Vector3) -> Vector3 {
        Vector3 {
            x: fx_sub_s(fx_mul_s(self.y, other.z), fx_mul_s(self.z, other.y)),
            y: fx_sub_s(fx_mul_s(self.z, other.x), fx_mul_s(self.x, other.z)),
            z: fx_sub_s(fx_mul_s(self.x, other.y), fx_mul_s(self.y, other.x)),
        }
    }

    pub open spec fn as_point_s(self) -> Point {
        Point { x: self.x, y: self.y, z: self.z }
    }

    pub fn zero() -> (r: Self)
        ensures
            r == (Vector3 { x: 0i64, y: 0i64, z: 0i64 }),
    {
        Vector3 { x: 0, y: 0, z: 0 }
    }

    pub fn add(&self, other: &Vector3) -> (r: Vector3)
        ensures
            r == self.add_s(*other),
    {
        Vector3 {
            x: fx_add(self.x, other.x),
            y: fx_add(self.y, other.y),
            z: fx_add(self.z, other.z),
        }
    }

    pub fn sub(&self, other: &Vector3) -> (r: Vector3)
        ensures
            r == self.sub_s(*other),
    {
        Vector3 {
            x: fx_sub(self.x, other.x),
            y: fx_sub(self.y, other.y),
            z: fx_sub(self.z, other.z),
        }
    }

    pub fn mul(&self, factor: i64) -> (r: Vector3)
        ensures
            r == self.mul_s(factor),
    {
        Vector3 {
            x: fx_mul(self.x, factor),
            y: fx_mul(self.y, factor),
            z: fx_mul(self.z, factor),
        }
    }

    pub fn dot(&self, other: &Vector3) -> (r: i64)
        ensures
            r == self.dot_s(*other),
    {
        fx_add(
            fx_add(fx_mul(self.x, other.x), fx_mul(self.y, other.y)),
            fx_mul(self.z, other.z),
        )
    }

    pub fn sq_length(&self) -> (r: i64)
        ensures
            r == self.sq_length_s(),
    {
        self.dot(self)
    }

    pub fn length(&self) -> (r: i64)
        ensures
            r == self.length_s(),
    {
        fx_sqrt(self.sq_length())
    }

    /// Scale the vector to unit length; the zero vector stays zero.
    pub fn normalize(&self) -> (r: Self)
        ensures
            r == self.normalize_s(),
    {
        let len: i64 = self.length();
        Vector3 {
            x: fx_div(self.x, len),
            y: fx_div(self.y, len),
            z: fx_div(self.z, len),
        }
    }

    pub fn cross(&self, other: &Vector3) -> (r: Vector3)
        ensures
            r == self.cross_s(*other),
    {
        Vector3 {
            x: fx_sub(fx_mul(self.y, other.z), fx_mul(self.z, other.y)),
            y: fx_sub(fx_mul(self.z, other.x), fx_mul(self.x, other.z)),
            z: fx_sub(fx_mul(self.x, other.y), fx_mul(self.y, other.x)),
        }
    }

    pub fn as_point(&self) -> (r: Point)
        ensures
            r == self.as_point_s(),
    {
        Point { x: self.x, y: self.y, z: self.z }
    }
}

impl Point {
    pub open spec fn sub_s(self, other: Point) -> Vector3 {
        Vector3 {
            x: fx_sub_s(self.x, other.x),
            y: fx_sub_s(self.y, other.y),
            z: fx_sub_s(self.z, other.z),
        }
    }

    pub open spec fn sq_distance_s(self, other: Point) -> i64 {
        self.sub_s(other).sq_length_s()
    }

    pub open spec fn distance_s(self, other: Point) -> i64 {
        self.sub_s(other).length_s()
    }

    pub open spec fn as_vector_s(self) -> Vector3 {
        Vector3 { x: self.x, y: self.y, z: self.z }
    }

    pub fn zero() -> (r: Point)
        ensures
            r == (Point { x: 0i64, y: 0i64, z: 0i64 }),
    {
        Point { x: 0, y: 0, z: 0 }
    }

    /// Affine subtraction: the vector leading from `other` to `self`.
    pub fn sub(&self, other: &Point) -> (r: Vector3)
        ensures
            r == self.sub_s(*other),
    {
        Vector3 {
            x: fx_sub(self.x, other.x),
            y: fx_sub(self.y, other.y),
            z: fx_sub(self.z, other.z),
        }
    }

    pub fn distance(&self, other: &Point) -> (r: i64)
        ensures
            r == self.distance_s(*other),
    {
        let diff: Vector3 = self.sub(other);
        diff.length()
    }

    pub fn sq_distance(&self, other: &Point) -> (r: i64)
        ensures
            r == self.sq_distance_s(*other),
    {
        let diff: Vector3 = self.sub(other);
        diff.sq_length()
    }

    pub fn as_vector(&self) -> (r: Vector3)
        ensures
            r == self.as_vector_s(),
    {
        Vector3 { x: self.x, y: self.y, z: self.z }
    }

    pub fn from_list(f_list: [i64; 3]) -> (r: Point)
        ensures
            r == (Point { x: f_list[0], y: f_list[1], z: f_list[2] }),
    {
        Point { x: f_list[0], y: f_list[1], z: f_list[2] }
    }
}

} // verus!
