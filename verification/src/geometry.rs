//! Plain-value screen geometry.
//!
//! The host UI toolkit measures positions and sizes in single-precision
//! screen coordinates. The state machine here never computes with a
//! coordinate — it only stores one, hands it back once, or substitutes a
//! sentinel — so each coordinate is carried as the bit pattern of an IEEE 754
//! single-precision number. Every value of the host's coordinate type
//! round-trips losslessly through these types, and finiteness (the one
//! property the library must guarantee of what it exposes, because common
//! structured encodings cannot represent infinities) is a plain predicate on
//! the bits.

use vstd::prelude::*;

verus! {

/// True when `bits` is the pattern of a finite number: the exponent field of
/// an IEEE 754 single-precision value is not all ones (all ones encodes an
/// infinity or a NaN).
pub open spec fn finite_bits(bits: u32) -> bool {
    bits & 0x7f80_0000u32 != 0x7f80_0000u32
}

/// Runtime test for [`finite_bits`].
pub fn is_finite_bits(bits: u32) -> (r: bool)
    ensures
        r == finite_bits(bits),
{
    bits & 0x7f80_0000u32 != 0x7f80_0000u32
}

/// A position in screen coordinates; each field is the bit pattern of one
/// single-precision coordinate.
#[derive(Clone, Copy, Debug, PartialEq)]
pub struct Point {
    pub x_bits: u32,
    pub y_bits: u32,
}

impl Point {
    /// Both coordinates are finite numbers.
    pub open spec fn wf(self) -> bool {
        finite_bits(self.x_bits) && finite_bits(self.y_bits)
    }

    pub fn new(x_bits: u32, y_bits: u32) -> (r: Point)
        ensures
            r == (Point { x_bits, y_bits }),
    {
        Point { x_bits, y_bits }
    }

    /// The origin, `(0.0, 0.0)`; zero bits encode the number zero.
    pub fn origin() -> (r: Point)
        ensures
            r == Point::origin_spec(),
            r.wf(),
    {
        proof {
            lemma_zero_bits_finite();
        }
        Point { x_bits: 0, y_bits: 0 }
    }

    pub open spec fn origin_spec() -> Point {
        Point { x_bits: 0, y_bits: 0 }
    }
}

/// An extent in screen coordinates; each field is the bit pattern of one
/// single-precision length.
#[derive(Clone, Copy, Debug, PartialEq)]
pub struct Size {
    pub w_bits: u32,
    pub h_bits: u32,
}

impl Size {
    /// Both extents are finite numbers.
    pub open spec fn wf(self) -> bool {
        finite_bits(self.w_bits) && finite_bits(self.h_bits)
    }

    pub fn new(w_bits: u32, h_bits: u32) -> (r: Size)
        ensures
            r == (Size { w_bits, h_bits }),
    {
        Size { w_bits, h_bits }
    }
}

/// An axis-aligned rectangle given by two corners.
#[derive(Clone, Copy, Debug, PartialEq)]
pub struct Rect {
    pub min: Point,
    pub max: Point,
}

impl Rect {
    /// All four coordinates are finite numbers.
    pub open spec fn wf(self) -> bool {
        self.min.wf() && self.max.wf()
    }

    pub fn new(min: Point, max: Point) -> (r: Rect)
        ensures
            r == (Rect { min, max }),
    {
        Rect { min, max }
    }

    /// The finite empty sentinel: a zero-area rectangle at the origin. It
    /// stands in for "never drawn", whose natural representation (an
    /// unbounded rectangle) must not reach anything that might encode it.
    pub open spec fn empty_sentinel() -> Rect {
        Rect { min: Point::origin_spec(), max: Point::origin_spec() }
    }

    /// Runtime constructor for [`Rect::empty_sentinel`].
    pub fn empty() -> (r: Rect)
        ensures
            r == Rect::empty_sentinel(),
            r.wf(),
    {
        Rect { min: Point::origin(), max: Point::origin() }
    }
}

/// The zero bit pattern encodes the number zero, which is finite.
pub proof fn lemma_zero_bits_finite()
    ensures
        finite_bits(0u32),
{
    assert(0u32 & 0x7f80_0000u32 == 0u32) by (bit_vector);
}

} // verus!
