//! Texture-coordinate wrapping, texture sampling, color conversions and
//! the fixed-point trigonometry.

use ray_tracing::color::Color;
use ray_tracing::fixed::SCALE;
use ray_tracing::scene::{wrap, Coloration, Texture, TextureCoords};
use ray_tracing::trig::{acos, atan2, cos, sin, tan, HALF_PI_FX};

#[test]
fn test_wrap_negative_into_range() {
    // A negative raw index wraps to the upper end of the range.
    assert_eq!(wrap(-1, 10), 9);
    assert_eq!(wrap(-10, 10), 0);
    assert_eq!(wrap(-11, 10), 9);
    assert_eq!(wrap(25, 10), 5);
    assert_eq!(wrap(0, 10), 0);
    // Every result lies in 0 .. bound.
    for raw in -30..30 {
        assert!(wrap(raw, 7) < 7);
    }
}

#[test]
fn test_wrap_periodic() {
    // Shifting by whole periods never changes the wrapped value.
    for raw in -25..25 {
        for k in -3..4_i64 {
            assert_eq!(wrap(raw + k * 11, 11), wrap(raw, 11));
        }
    }
}

fn two_by_two() -> Texture {
    Texture {
        width: 2,
        height: 2,
        pixels: vec![
            Color { red: SCALE, green: 0, blue: 0 },
            Color { red: 0, green: SCALE, blue: 0 },
            Color { red: 0, green: 0, blue: SCALE },
            Color { red: SCALE, green: SCALE, blue: SCALE },
        ],
    }
}

#[test]
fn test_texture_sampling() {
    let tex = Coloration::Texture(two_by_two());
    // (0, 0) samples the first pixel.
    let c = tex.color(&TextureCoords { x: 0, y: 0 });
    assert_eq!(c, Color { red: SCALE, green: 0, blue: 0 });
    // Half a unit to the right reaches the second column.
    let c = tex.color(&TextureCoords { x: SCALE / 2, y: 0 });
    assert_eq!(c, Color { red: 0, green: SCALE, blue: 0 });
    // A negative coordinate wraps instead of failing: -0.75 of two
    // pixels is raw index -1, which wraps to column one.
    let c = tex.color(&TextureCoords { x: -3 * SCALE / 4, y: 0 });
    assert_eq!(c, Color { red: 0, green: SCALE, blue: 0 });
    // One full unit right and one row down: periodicity in x.
    let c = tex.color(&TextureCoords { x: SCALE, y: SCALE / 2 });
    assert_eq!(c, Color { red: 0, green: 0, blue: SCALE });
}

#[test]
fn test_constant_coloration() {
    let c = Coloration::Color(Color { red: 123, green: 456, blue: 789 });
    let got = c.color(&TextureCoords { x: -5 * SCALE, y: 99 * SCALE });
    assert_eq!(got, Color { red: 123, green: 456, blue: 789 });
}

#[test]
fn test_color_conversions() {
    let c = Color { red: SCALE, green: SCALE / 2, blue: 0 };
    assert_eq!(c.to_rgba(), [255, 127, 0, 0]);

    let back = Color::from_rgba(&[255, 127, 0, 0]);
    assert_eq!(back.red, SCALE);
    assert_eq!(back.green, (127 * SCALE) / 255);
    assert_eq!(back.blue, 0);

    let wild = Color { red: -5 * SCALE, green: 9 * SCALE, blue: 30000 };
    let clamped = wild.clamp();
    assert_eq!(clamped, Color { red: 0, green: SCALE, blue: 30000 });
    // Out-of-range channels saturate in the byte conversion too.
    assert_eq!(wild.to_rgba(), [0, 255, 116, 0]);
}

#[test]
fn test_color_arithmetic() {
    let a = Color { red: SCALE, green: SCALE / 2, blue: 0 };
    let b = Color { red: SCALE / 2, green: SCALE / 2, blue: SCALE };
    assert_eq!(
        a.mul_color(&b),
        Color { red: SCALE / 2, green: SCALE / 4, blue: 0 }
    );
    assert_eq!(
        a.mul_scalar(2 * SCALE),
        Color { red: 2 * SCALE, green: SCALE, blue: 0 }
    );
    assert_eq!(
        a.add(&b),
        Color { red: SCALE + SCALE / 2, green: SCALE, blue: SCALE }
    );
}

#[test]
fn test_trig_exact_points() {
    assert_eq!(sin(0), 0);
    assert_eq!(cos(0), SCALE);
    assert_eq!(tan(0), 0);
    assert_eq!(atan2(0, SCALE), 0);
    assert_eq!(acos(SCALE), 0);
    assert_eq!(acos(0), HALF_PI_FX);
    // The tangent of 45 degrees is one, up to series truncation.
    let t = tan(51472);  // pi / 4
    assert!((t - SCALE).abs() < 200);
}
