//! Vector, point and fixed-point scalar arithmetic.

use ray_tracing::fixed::{fx_add, fx_div, fx_mul, fx_sqrt, SCALE};
use ray_tracing::math::{Point, Vector3};

#[test]
fn test_add_vector() {
    let v1 = Vector3 { x: 65536, y: 131072, z: 196608 };
    let v2 = Vector3 { x: 196608, y: 131072, z: 65536 };

    let v = v1.add(&v2);

    assert_eq!(v.x, 4 * 65536);
    assert_eq!(v.y, 4 * 65536);
    assert_eq!(v.z, 4 * 65536);
}

#[test]
fn test_multiply_vector_with_scalar() {
    let v1 = Vector3 { x: 65536, y: 131072, z: 196608 };

    let s = 2 * 65536;

    let v = v1.mul(s);

    assert_eq!(v.x, 2 * 65536);
    assert_eq!(v.y, 4 * 65536);
    assert_eq!(v.z, 6 * 65536);
}

#[test]
fn test_fixed_scalar_ops() {
    assert_eq!(fx_mul(3 * SCALE, 2 * SCALE), 6 * SCALE);
    assert_eq!(fx_div(SCALE, 2 * SCALE), SCALE / 2);
    assert_eq!(fx_sqrt(4 * SCALE), 2 * SCALE);
    assert_eq!(fx_div(SCALE, 0), 0);
    // Saturation instead of overflow.
    assert_eq!(fx_add(i64::MAX, 1), i64::MAX);
    assert_eq!(fx_add(i64::MIN, -1), i64::MIN);
}

#[test]
fn test_dot_and_cross() {
    let x_axis = Vector3 { x: SCALE, y: 0, z: 0 };
    let y_axis = Vector3 { x: 0, y: SCALE, z: 0 };

    assert_eq!(x_axis.dot(&y_axis), 0);
    assert_eq!(x_axis.dot(&x_axis), SCALE);

    let c = x_axis.cross(&y_axis);
    assert_eq!(c.x, 0);
    assert_eq!(c.y, 0);
    assert_eq!(c.z, SCALE);
}

#[test]
fn test_length_and_normalize() {
    // A 3-4-5 triangle is exact in fixed point.
    let v = Vector3 { x: 3 * SCALE, y: 4 * SCALE, z: 0 };
    assert_eq!(v.sq_length(), 25 * SCALE);
    assert_eq!(v.length(), 5 * SCALE);

    let n = v.normalize();
    assert_eq!(n.x, 39321);  // 0.6 rounded toward zero
    assert_eq!(n.y, 52428);  // 0.8 rounded toward zero
    assert_eq!(n.z, 0);
}

#[test]
fn test_point_distance() {
    let a = Point { x: 0, y: 0, z: 0 };
    let b = Point { x: 3 * SCALE, y: 4 * SCALE, z: 0 };
    assert_eq!(a.distance(&b), 5 * SCALE);
    assert_eq!(a.sq_distance(&b), 25 * SCALE);

    let d = b.sub(&a);
    assert_eq!(d.x, 3 * SCALE);

    let p = Point::from_list([65536, 131072, 196608]);
    assert_eq!(p.y, 131072);
    assert_eq!(p.as_vector().z, 196608);
    assert_eq!(Vector3::zero().as_point().x, Point::zero().x);
}
