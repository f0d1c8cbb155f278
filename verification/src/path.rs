//! Path elements and the shapes that the drawing verbs take.

use vstd::prelude::*;
use crate::geometry::{Point, Rect};

verus! {

/// Bit pattern of `1e-3`, the largest deviation allowed between a curved
/// outline and the path elements that stand for it.
pub const PATH_TOLERANCE_BITS: u64 = 0x3F50_624D_D2F1_A9FC;

/// One element of a path.
#[derive(Clone, Copy, Debug, PartialEq, Eq, Structural)]
pub enum PathEl {
    /// Start a new subpath at the point.
    MoveTo(Point),
    /// A straight line to the point.
    LineTo(Point),
    /// A quadratic curve with one control point, to the second point.
    QuadTo(Point, Point),
    /// A cubic curve with two control points, to the third point.
    CurveTo(Point, Point, Point),
    /// Close the current subpath.
    ClosePath,
}

/// The outline of a rectangle: from the first corner along the first
/// horizontal side, round all four corners, and closed.
pub open spec fn rect_path(r: Rect) -> Seq<PathEl> {
    seq![
        PathEl::MoveTo(Point { x: r.x0, y: r.y0 }),
        PathEl::LineTo(Point { x: r.x1, y: r.y0 }),
        PathEl::LineTo(Point { x: r.x1, y: r.y1 }),
        PathEl::LineTo(Point { x: r.x0, y: r.y1 }),
        PathEl::ClosePath,
    ]
}

/// A shape: either exactly a rectangle, or an outline given element by
/// element.
#[derive(Clone, Debug, PartialEq, Eq)]
pub enum Shape {
    Rect(Rect),
    Path(Vec<PathEl>),
}

impl Shape {
    /// The path elements of the shape, in order.
    pub open spec fn elements(&self) -> Seq<PathEl> {
        match self {
            Shape::Rect(r) => rect_path(*r),
            Shape::Path(p) => p@,
        }
    }

    /// The rectangle that the shape is, if it is exactly one.
    pub open spec fn rect_spec(&self) -> Option<Rect> {
        match self {
            Shape::Rect(r) => Some(*r),
            Shape::Path(_) => None,
        }
    }

    /// The rectangle that the shape is, if it is exactly one.
    #[verifier::when_used_as_spec(rect_spec)]
    pub fn as_rect(&self) -> (r: Option<Rect>)
        ensures
            r == self.rect_spec(),
    {
        match self {
            Shape::Rect(r) => Some(*r),
            Shape::Path(_) => None,
        }
    }
}

} // verus!
