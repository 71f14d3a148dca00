//! Geometry snapshots and their comparison.
//!
//! Coordinates are IEEE 754 single-precision numbers, held by their bit
//! patterns. Two coordinates are compared as the numbers they encode: a NaN
//! equals nothing, itself included, and the two zeros are equal.

use vstd::prelude::*;

verus! {

/// The bits of a coordinate without its sign.
pub open spec fn magnitude(bits: u32) -> u32 {
    bits & 0x7fff_ffffu32
}

/// Whether the bit pattern encodes a NaN: all exponent bits set, fraction not zero.
pub open spec fn is_nan(bits: u32) -> bool {
    magnitude(bits) > 0x7f80_0000u32
}

/// Whether the bit pattern encodes zero, of either sign.
pub open spec fn is_zero(bits: u32) -> bool {
    magnitude(bits) == 0
}

/// Equality of the numbers that two bit patterns encode.
pub open spec fn number_eq(a: u32, b: u32) -> bool {
    &&& !is_nan(a)
    &&& !is_nan(b)
    &&& (a == b || (is_zero(a) && is_zero(b)))
}

/// Compares two coordinates as numbers.
pub fn same_number(a: u32, b: u32) -> (r: bool)
    ensures
        r == number_eq(a, b),
{
    let ma: u32 = a & 0x7fff_ffffu32;
    let mb: u32 = b & 0x7fff_ffffu32;
    ma <= 0x7f80_0000u32 && mb <= 0x7f80_0000u32 && (a == b || (ma == 0 && mb == 0))
}

/// A point of the drawing surface.
#[derive(Clone, Copy, Debug)]
pub struct Point {
    pub x: u32,
    pub y: u32,
}

/// A rectangle of the drawing surface, given by two opposite corners.
#[derive(Clone, Copy, Debug)]
pub struct Rect {
    pub min: Point,
    pub max: Point,
}

/// What the application reports of the text being edited: where the text
/// field is, and where the cursor is in it.
#[derive(Clone, Copy, Debug)]
pub struct ImeOutput {
    pub rect: Rect,
    pub cursor_rect: Rect,
}

impl Point {
    /// Both coordinates are equal as numbers.
    pub open spec fn same_as(self, other: Point) -> bool {
        number_eq(self.x, other.x) && number_eq(self.y, other.y)
    }
}

impl PartialEq for Point {
    fn eq(&self, other: &Point) -> (r: bool) {
        same_number(self.x, other.x) && same_number(self.y, other.y)
    }
}

impl vstd::std_specs::cmp::PartialEqSpecImpl for Point {
    open spec fn obeys_eq_spec() -> bool {
        true
    }

    open spec fn eq_spec(&self, other: &Point) -> bool {
        self.same_as(*other)
    }
}

impl Rect {
    /// Both corners are equal.
    pub open spec fn same_as(self, other: Rect) -> bool {
        self.min.same_as(other.min) && self.max.same_as(other.max)
    }
}

impl PartialEq for Rect {
    fn eq(&self, other: &Rect) -> (r: bool) {
        self.min == other.min && self.max == other.max
    }
}

impl vstd::std_specs::cmp::PartialEqSpecImpl for Rect {
    open spec fn obeys_eq_spec() -> bool {
        true
    }

    open spec fn eq_spec(&self, other: &Rect) -> bool {
        self.same_as(*other)
    }
}

impl ImeOutput {
    /// Both rectangles are equal.
    pub open spec fn same_as(self, other: ImeOutput) -> bool {
        self.rect.same_as(other.rect) && self.cursor_rect.same_as(other.cursor_rect)
    }
}

impl PartialEq for ImeOutput {
    fn eq(&self, other: &ImeOutput) -> (r: bool) {
        self.rect == other.rect && self.cursor_rect == other.cursor_rect
    }
}

impl vstd::std_specs::cmp::PartialEqSpecImpl for ImeOutput {
    open spec fn obeys_eq_spec() -> bool {
        true
    }

    open spec fn eq_spec(&self, other: &ImeOutput) -> bool {
        self.same_as(*other)
    }
}

} // verus!
