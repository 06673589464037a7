//! RGB colors over fixed-point scalars.
//!
//! Channel values are fixed-point numbers where [`crate::fixed::SCALE`]
//! stands for full intensity.  Values may exceed that range while light
//! contributions accumulate; [`Color::clamp`] brings them back to the
//! displayable range.

use crate::fixed::{fx_add, fx_add_s, fx_mul, fx_mul_s, SCALE};
use vstd::prelude::*;

verus! {

#[derive(Copy, Clone, Debug, PartialEq, Eq, Structural)]
pub struct Color {
    pub red: i64,
    pub green: i64,
    pub blue: i64,
}

/// The color of a missed ray and of exhausted recursion.
pub open spec fn black_s() -> Color {
    Color { red: 0, green: 0, blue: 0 }
}

/// A fixed-point channel rendered as a byte: scaled by 255 and saturated
/// into `0 ..= 255`.
pub open spec fn to_byte_s(c: i64) -> u8 {
    if c <= 0 {
        0
    } else if (c * 255) / (SCALE as int) >= 255 {
        255
    } else {
        ((c * 255) / (SCALE as int)) as u8
    }
}

/// A byte channel read back as a fixed-point value in `0 ..= SCALE`.
pub open spec fn from_byte_s(v: u8) -> i64 {
    ((v * SCALE) / 255) as i64
}

impl Color {
    pub open spec fn mul_color_s(self, other: Color) -> Color {
        Color {
            red: fx_mul_s(self.red, other.red),
            green: fx_mul_s(self.green, other.green),
            blue: fx_mul_s(self.blue, other.blue),
        }
    }

    pub open spec fn mul_scalar_s(self, factor: i64) -> Color {
        Color {
            red: fx_mul_s(self.red, factor),
            green: fx_mul_s(self.green, factor),
            blue: fx_mul_s(self.blue, factor),
        }
    }

    pub open spec fn add_s(self, other: Color) -> Color {
        Color {
            red: fx_add_s(self.red, other.red),
            green: fx_add_s(self.green, other.green),
            blue: fx_add_s(self.blue, other.blue),
        }
    }

    pub open spec fn clamp_s(self) -> Color {
        Color {
            red: clamp_channel_s(self.red),
            green: clamp_channel_s(self.green),
            blue: clamp_channel_s(self.blue),
        }
    }

    pub open spec fn to_rgba_s(self) -> [u8; 4] {
        [to_byte_s(self.red), to_byte_s(self.green), to_byte_s(self.blue), 0u8]
    }

    pub open spec fn from_rgba_s(rgba: [u8; 4]) -> Color {
        Color {
            red: from_byte_s(rgba[0]),
            green: from_byte_s(rgba[1]),
            blue: from_byte_s(rgba[2]),
        }
    }

    /// The black color.
    pub fn black() -> (r: Color)
        ensures
            r == black_s(),
    {
        Color { red: 0, green: 0, blue: 0 }
    }

    /// Componentwise product of two colors.
    pub fn mul_color(&self, other: &Color) -> (r: Color)
        ensures
            r == self.mul_color_s(*other),
    {
        Color {
            red: fx_mul(self.red, other.red),
            green: fx_mul(self.green, other.green),
            blue: fx_mul(self.blue, other.blue),
        }
    }

    /// All channels scaled by a fixed-point factor.
    pub fn mul_scalar(&self, factor: i64) -> (r: Color)
        ensures
            r == self.mul_scalar_s(factor),
    {
        Color {
            red: fx_mul(self.red, factor),
            green: fx_mul(self.green, factor),
            blue: fx_mul(self.blue, factor),
        }
    }

    /// Componentwise sum of two colors.
    pub fn add(&self, other: &Color) -> (r: Color)
        ensures
            r == self.add_s(*other),
    {
        Color {
            red: fx_add(self.red, other.red),
            green: fx_add(self.green, other.green),
            blue: fx_add(self.blue, other.blue),
        }
    }

    /// Saturate every channel into the displayable range `0 ..= SCALE`.
    pub fn clamp(&self) -> (r: Color)
        ensures
            r == self.clamp_s(),
    {
        Color {
            red: clamp_channel(self.red),
            green: clamp_channel(self.green),
            blue: clamp_channel(self.blue),
        }
    }

    /// The color as one byte per channel plus a zero alpha byte.
    pub fn to_rgba(&self) -> (r: [u8; 4])
        ensures
            r == self.to_rgba_s(),
    {
        [to_byte(self.red), to_byte(self.green), to_byte(self.blue), 0u8]
    }

    /// A color from one byte per channel; the alpha byte is ignored.
    pub fn from_rgba(rgba: &[u8; 4]) -> (r: Color)
        ensures
            r == Color::from_rgba_s(*rgba),
    {
        Color { red: from_byte(rgba[0]), green: from_byte(rgba[1]), blue: from_byte(rgba[2]) }
    }
}

pub open spec fn clamp_channel_s(c: i64) -> i64 {
    if c < 0 {
        0
    } else if c > SCALE {
        SCALE
    } else {
        c
    }
}

fn clamp_channel(c: i64) -> (r: i64)
    ensures
        r == clamp_channel_s(c),
{
    if c < 0 {
        0
    } else if c > SCALE {
        SCALE
    } else {
        c
    }
}

/// A fixed-point channel rendered as a byte.
pub fn to_byte(c: i64) -> (r: u8)
    ensures
        r == to_byte_s(c),
{
    if c <= 0 {
        return 0;
    }
    let q: u128 = (c as u128 * 255) / 65536;
    if q >= 255 {
        255
    } else {
        q as u8
    }
}

fn from_byte(v: u8) -> (r: i64)
    ensures
        r == from_byte_s(v),
{
    ((v as u64 * 65536) / 255) as i64
}

} // verus!
