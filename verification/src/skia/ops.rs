//! The primitives of the engine, as values.

use vstd::prelude::*;
use crate::geometry::{Affine, Point, Rect, Scalar};
use crate::image::InterpolationMode;
use crate::path::PathEl;
use crate::skia::image::Image;
use crate::skia::paint::Brush;
use crate::skia::text::SkiaTextLayout;
use crate::stroke::{Dash, LineCap, LineJoin};

verus! {

/// How a path bounds an area.
#[derive(Clone, Copy, Debug, PartialEq, Eq, Structural)]
pub enum FillType {
    Winding,
    EvenOdd,
}

/// One call that builds a path.
#[derive(Clone, Copy, Debug, PartialEq, Eq, Structural)]
pub enum PathVerb {
    MoveTo(Point),
    LineTo(Point),
    /// A quadratic curve with one control point, to the second point.
    QuadTo(Point, Point),
    /// A cubic curve with two control points, to the third point.
    CubicTo(Point, Point, Point),
    Close,
}

/// A path of the engine: the calls that build it, in order, and how it
/// bounds an area.
#[derive(Clone, Debug, PartialEq, Eq)]
pub struct Path {
    pub verbs: Vec<PathVerb>,
    pub fill_type: FillType,
}

/// The call that appends one element to a path.
pub open spec fn path_verb(el: PathEl) -> PathVerb {
    match el {
        PathEl::MoveTo(p) => PathVerb::MoveTo(p),
        PathEl::LineTo(p) => PathVerb::LineTo(p),
        PathEl::QuadTo(c, p) => PathVerb::QuadTo(c, p),
        PathEl::CurveTo(c1, c2, p) => PathVerb::CubicTo(c1, c2, p),
        PathEl::ClosePath => PathVerb::Close,
    }
}

/// The calls that build the path of the elements.
pub open spec fn path_verbs(elements: Seq<PathEl>) -> Seq<PathVerb> {
    Seq::new(elements.len(), |i: int| path_verb(elements[i]))
}

/// Whether a path is filled or stroked, and how it is stroked.
#[derive(Clone, Copy, Debug, PartialEq, Eq)]
pub enum DrawStyle<'a> {
    Fill,
    Stroke { width: Scalar, cap: LineCap, join: LineJoin, dash: Option<&'a Dash> },
}

/// One primitive of the engine. A plan is a sequence of these, to be issued
/// in order.
#[derive(Clone, Debug, PartialEq, Eq)]
pub enum SkOp<'a> {
    /// Write the colour, given as an ARGB word, to every pixel of the
    /// surface. Neither the transform nor the clip holds it in.
    Clear(u32),
    /// Draw the path with the paint of the brush, in the style given.
    DrawPath(Path, &'a Brush, DrawStyle<'a>),
    /// Intersect the clip with the path.
    ClipPath(Path),
    /// Push the transform and the clip.
    Save,
    /// Pop the transform and the clip pushed last.
    Restore,
    /// Apply the map before the current transform.
    Concat(Affine),
    /// Draw the image, or the part of it inside the first rectangle where
    /// one is given, so that it fills the second rectangle.
    DrawImageRect(&'a Image, Option<Rect>, Rect, InterpolationMode),
    /// Draw the text of the layout in its font, with the paint of the
    /// brush, the start of its baseline at the point.
    DrawText(&'a SkiaTextLayout, Point, &'a Brush),
    /// Carry out everything issued so far.
    Flush,
}

} // verus!
