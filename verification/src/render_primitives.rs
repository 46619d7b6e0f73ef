use vstd::prelude::*;

use crate::error::{invalid_data, is_invalid_data, ChartResult};
use crate::float_bits::{bits_eq, bits_is_finite, bits_lt, eq, is_finite, lt, F64Bits};

verus! {

/// `1.0` as an encoded `f64`.
pub const UNIT_BITS: F64Bits = 0x3ff0_0000_0000_0000;

/// Horizontal alignment of a text primitive around its anchor.
#[derive(Debug, Clone, Copy, PartialEq, Eq, Structural)]
pub enum TextHAlign {
    Left,
    Center,
    Right,
}

/// Stroke pattern of a line primitive.
#[derive(Debug, Clone, Copy, PartialEq, Eq, Structural)]
pub enum LineStrokeStyle {
    Solid,
    Dotted,
    Dashed,
}

/// An RGBA color whose channels are encoded `f64` values in `[0, 1]`.
#[derive(Debug, Clone, Copy)]
pub struct Color {
    pub red: F64Bits,
    pub green: F64Bits,
    pub blue: F64Bits,
    pub alpha: F64Bits,
}

/// The opaque color with the given channels.
pub open spec fn color_rgb(red: F64Bits, green: F64Bits, blue: F64Bits) -> Color {
    Color { red, green, blue, alpha: UNIT_BITS }
}

/// A channel is finite and lies in `[0, 1]`.
pub open spec fn channel_valid(c: F64Bits) -> bool {
    is_finite(c) && !lt(c, 0) && !lt(UNIT_BITS, c)
}

/// Every channel of the color is finite and lies in `[0, 1]`.
pub open spec fn color_valid(c: Color) -> bool {
    &&& channel_valid(c.red)
    &&& channel_valid(c.green)
    &&& channel_valid(c.blue)
    &&& channel_valid(c.alpha)
}

/// The text of the error for a color with a channel out of range.
pub open spec fn color_error() -> Seq<char> {
    "color channels must be finite and in [0, 1]"@
}

/// The colors compare equal channel by channel, as `f64` values.
pub open spec fn color_eq(a: Color, b: Color) -> bool {
    &&& eq(a.red, b.red)
    &&& eq(a.green, b.green)
    &&& eq(a.blue, b.blue)
    &&& eq(a.alpha, b.alpha)
}

/// Two optional colors are both absent, or both present and equal.
pub open spec fn opt_color_eq(a: Option<Color>, b: Option<Color>) -> bool {
    match (a, b) {
        (Some(x), Some(y)) => color_eq(x, y),
        (None, None) => true,
        _ => false,
    }
}

/// An optional color is absent or valid.
pub open spec fn opt_color_valid(c: Option<Color>) -> bool {
    c matches Some(x) ==> color_valid(x)
}

fn channel_ok(c: F64Bits) -> (r: bool)
    ensures
        r == channel_valid(c),
{
    bits_is_finite(c) && !bits_lt(c, 0) && !bits_lt(UNIT_BITS, c)
}

impl Color {
    /// The opaque color with the given channels.
    pub fn rgb(red: F64Bits, green: F64Bits, blue: F64Bits) -> (r: Color)
        ensures
            r == color_rgb(red, green, blue),
    {
        Color { red, green, blue, alpha: UNIT_BITS }
    }

    /// Every channel is finite and lies in `[0, 1]`.
    pub fn is_valid(&self) -> (r: bool)
        ensures
            r == color_valid(*self),
    {
        channel_ok(self.red) && channel_ok(self.green) && channel_ok(self.blue) && channel_ok(
            self.alpha,
        )
    }

    /// The color itself when every channel is finite and in `[0, 1]`.
    pub fn validate(self) -> (r: ChartResult<Color>)
        ensures
            r is Ok <==> color_valid(self),
            r matches Ok(c) ==> c == self,
            !color_valid(self) ==> is_invalid_data(r, color_error()),
    {
        if !self.is_valid() {
            return Err(invalid_data("color channels must be finite and in [0, 1]"));
        }
        Ok(self)
    }
}

/// An optional color is absent or valid.
pub fn opt_color_ok(c: Option<Color>) -> (r: bool)
    ensures
        r == opt_color_valid(c),
{
    match c {
        Some(x) => x.is_valid(),
        None => true,
    }
}

/// Two optional colors are both absent, or both present and equal.
pub fn opt_color_equal(a: Option<Color>, b: Option<Color>) -> (r: bool)
    ensures
        r == opt_color_eq(a, b),
{
    match (a, b) {
        (Some(x), Some(y)) => x == y,
        (None, None) => true,
        _ => false,
    }
}

impl PartialEq for Color {
    fn eq(&self, other: &Color) -> (r: bool) {
        bits_eq(self.red, other.red) && bits_eq(self.green, other.green) && bits_eq(
            self.blue,
            other.blue,
        ) && bits_eq(self.alpha, other.alpha)
    }
}

impl vstd::std_specs::cmp::PartialEqSpecImpl for Color {
    open spec fn obeys_eq_spec() -> bool {
        true
    }

    open spec fn eq_spec(&self, other: &Color) -> bool {
        color_eq(*self, *other)
    }
}

} // verus!
