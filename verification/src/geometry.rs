//! Coordinates and the plain geometric values built from them.
//!
//! A coordinate is carried as the bit pattern of an IEEE-754 double and is
//! never computed with here, apart from flipping its sign: every value a
//! caller hands in reaches the drawing engine bit for bit.

use vstd::prelude::*;

verus! {

/// Bit pattern of `0.0`.
pub const ZERO_BITS: u64 = 0;

/// Bit pattern of `1.0`.
pub const ONE_BITS: u64 = 0x3FF0_0000_0000_0000;

/// Bit pattern of `-1.0`.
pub const NEG_ONE_BITS: u64 = 0xBFF0_0000_0000_0000;

/// The sign bit of a double.
pub const SIGN_BIT: u64 = 0x8000_0000_0000_0000;

/// A double-precision number, held as its bit pattern.
#[derive(Clone, Copy, Debug, PartialEq, Eq, Structural)]
pub struct Scalar {
    pub bits: u64,
}

/// The bit pattern of the negation of the double with pattern `bits`:
/// the same exponent and fraction under the opposite sign.
pub open spec fn negated_bits(bits: u64) -> u64 {
    bits ^ SIGN_BIT
}

impl Scalar {
    pub open spec fn zero_spec() -> Scalar {
        Scalar { bits: ZERO_BITS }
    }

    pub open spec fn one_spec() -> Scalar {
        Scalar { bits: ONE_BITS }
    }

    pub open spec fn neg_one_spec() -> Scalar {
        Scalar { bits: NEG_ONE_BITS }
    }

    pub open spec fn negated_spec(self) -> Scalar {
        Scalar { bits: negated_bits(self.bits) }
    }

    /// The scalar with the given bit pattern.
    pub fn from_bits(bits: u64) -> (s: Scalar)
        ensures
            s.bits == bits,
    {
        Scalar { bits }
    }

    /// The bit pattern of this scalar.
    pub fn to_bits(self) -> (bits: u64)
        ensures
            bits == self.bits,
    {
        self.bits
    }

    #[verifier::when_used_as_spec(zero_spec)]
    pub fn zero() -> (s: Scalar)
        ensures
            s == Scalar::zero_spec(),
    {
        Scalar { bits: ZERO_BITS }
    }

    #[verifier::when_used_as_spec(one_spec)]
    pub fn one() -> (s: Scalar)
        ensures
            s == Scalar::one_spec(),
    {
        Scalar { bits: ONE_BITS }
    }

    #[verifier::when_used_as_spec(neg_one_spec)]
    pub fn neg_one() -> (s: Scalar)
        ensures
            s == Scalar::neg_one_spec(),
    {
        Scalar { bits: NEG_ONE_BITS }
    }

    /// The same magnitude under the opposite sign.
    #[verifier::when_used_as_spec(negated_spec)]
    pub fn negated(self) -> (s: Scalar)
        ensures
            s == self.negated_spec(),
    {
        Scalar { bits: self.bits ^ SIGN_BIT }
    }
}

/// A point of the plane.
#[derive(Clone, Copy, Debug, PartialEq, Eq, Structural)]
pub struct Point {
    pub x: Scalar,
    pub y: Scalar,
}

/// A displacement in the plane.
#[derive(Clone, Copy, Debug, PartialEq, Eq, Structural)]
pub struct Vec2 {
    pub x: Scalar,
    pub y: Scalar,
}

/// A width and a height.
#[derive(Clone, Copy, Debug, PartialEq, Eq, Structural)]
pub struct Size {
    pub width: Scalar,
    pub height: Scalar,
}

/// A rectangle with sides parallel to the axes, given by two opposite corners.
#[derive(Clone, Copy, Debug, PartialEq, Eq, Structural)]
pub struct Rect {
    pub x0: Scalar,
    pub y0: Scalar,
    pub x1: Scalar,
    pub y1: Scalar,
}

/// An affine map of the plane with coefficients `[a, b, c, d, e, f]`:
/// it sends `(x, y)` to `(a*x + c*y + e, b*x + d*y + f)`.
#[derive(Clone, Copy, Debug, PartialEq, Eq, Structural)]
pub struct Affine {
    pub a: Scalar,
    pub b: Scalar,
    pub c: Scalar,
    pub d: Scalar,
    pub e: Scalar,
    pub f: Scalar,
}

impl Point {
    pub open spec fn origin_spec() -> Point {
        Point { x: Scalar::zero(), y: Scalar::zero() }
    }

    pub fn new(x: Scalar, y: Scalar) -> (p: Point)
        ensures
            p == (Point { x, y }),
    {
        Point { x, y }
    }

    /// The point `(0, 0)`.
    #[verifier::when_used_as_spec(origin_spec)]
    pub fn origin() -> (p: Point)
        ensures
            p == Point::origin_spec(),
    {
        Point { x: Scalar::zero(), y: Scalar::zero() }
    }
}

impl Rect {
    pub fn new(x0: Scalar, y0: Scalar, x1: Scalar, y1: Scalar) -> (r: Rect)
        ensures
            r == (Rect { x0, y0, x1, y1 }),
    {
        Rect { x0, y0, x1, y1 }
    }

    pub open spec fn from_origin_size_spec(size: Size) -> Rect {
        Rect { x0: Scalar::zero(), y0: Scalar::zero(), x1: size.width, y1: size.height }
    }

    /// The rectangle of the given size whose first corner is the origin.
    #[verifier::when_used_as_spec(from_origin_size_spec)]
    pub fn from_origin_size(size: Size) -> (r: Rect)
        ensures
            r == Rect::from_origin_size_spec(size),
    {
        Rect { x0: Scalar::zero(), y0: Scalar::zero(), x1: size.width, y1: size.height }
    }
}

impl Affine {
    pub open spec fn translate_spec(x: Scalar, y: Scalar) -> Affine {
        Affine {
            a: Scalar::one(),
            b: Scalar::zero(),
            c: Scalar::zero(),
            d: Scalar::one(),
            e: x,
            f: y,
        }
    }

    pub open spec fn scale_non_uniform_spec(sx: Scalar, sy: Scalar) -> Affine {
        Affine {
            a: sx,
            b: Scalar::zero(),
            c: Scalar::zero(),
            d: sy,
            e: Scalar::zero(),
            f: Scalar::zero(),
        }
    }

    pub open spec fn flip_y_spec() -> Affine {
        Affine::scale_non_uniform_spec(Scalar::one(), Scalar::neg_one())
    }

    /// The map that moves every point by `(x, y)`.
    #[verifier::when_used_as_spec(translate_spec)]
    pub fn translate(x: Scalar, y: Scalar) -> (m: Affine)
        ensures
            m == Affine::translate_spec(x, y),
    {
        Affine {
            a: Scalar::one(),
            b: Scalar::zero(),
            c: Scalar::zero(),
            d: Scalar::one(),
            e: x,
            f: y,
        }
    }

    /// The map that scales the two axes by `sx` and `sy`.
    #[verifier::when_used_as_spec(scale_non_uniform_spec)]
    pub fn scale_non_uniform(sx: Scalar, sy: Scalar) -> (m: Affine)
        ensures
            m == Affine::scale_non_uniform_spec(sx, sy),
    {
        Affine {
            a: sx,
            b: Scalar::zero(),
            c: Scalar::zero(),
            d: sy,
            e: Scalar::zero(),
            f: Scalar::zero(),
        }
    }

    /// The map that mirrors the plane in the x axis.
    #[verifier::when_used_as_spec(flip_y_spec)]
    pub fn flip_y() -> (m: Affine)
        ensures
            m == Affine::flip_y_spec(),
    {
        Affine::scale_non_uniform(Scalar::one(), Scalar::neg_one())
    }
}

} // verus!
