//! The primitives of the engine, as values.

use vstd::prelude::*;
use crate::color::Color;
use crate::core_graphics::brush::{LinearGradientBrush, RadialGradientBrush};
use crate::core_graphics::image::Image;
use crate::core_graphics::text::CoreGraphicsTextLayout;
use crate::geometry::{Affine, Point, Rect, Scalar};
use crate::image::InterpolationMode;
use crate::stroke::{Dash, LineCap, LineJoin};

verus! {

/// What drawing a text does with its glyphs.
#[derive(Clone, Copy, Debug, PartialEq, Eq, Structural)]
pub enum TextDrawingMode {
    /// Fill them with the colour of the text.
    Fill,
    /// Intersect the clip with them, and paint nothing.
    Clip,
}

/// One primitive of the engine. A plan is a sequence of these, to be issued
/// in order.
#[derive(Clone, Copy, Debug, PartialEq, Eq)]
pub enum CgOp<'a> {
    /// Push a copy of the graphics state.
    SaveState,
    /// Pop the graphics state pushed last, and make it the current one.
    RestoreState,
    /// Apply the map before the current transform.
    ConcatCtm(Affine),
    /// Undo the current transform: what is drawn next is drawn in the
    /// coordinates of the surface itself.
    ResetCtm,
    /// Undo the clip: what is drawn next can reach the whole surface.
    ResetClip,
    /// Make the colour the fill colour.
    SetFillColor(Color),
    /// Make the colour the stroke colour.
    SetStrokeColor(Color),
    SetLineWidth(Scalar),
    SetLineCap(LineCap),
    SetLineJoin(LineJoin),
    SetLineDash(&'a Dash),
    /// Fill the rectangle with the fill colour.
    FillRect(Rect),
    /// Stroke the outline of the rectangle with the stroke colour.
    StrokeRect(Rect),
    /// Intersect the clip with the rectangle.
    ClipToRect(Rect),
    /// Empty the current path.
    BeginPath,
    MoveToPoint(Point),
    AddLineToPoint(Point),
    AddQuadCurveToPoint(Point, Point),
    AddCurveToPoint(Point, Point, Point),
    ClosePath,
    /// Fill the current path by the nonzero rule, and empty it.
    FillPath,
    /// Fill the current path by the even-odd rule, and empty it.
    EoFillPath,
    /// Stroke the current path, and empty it.
    StrokePath,
    /// Intersect the clip with the current path by the nonzero rule, and
    /// empty the path.
    Clip,
    /// Intersect the clip with the current path by the even-odd rule, and
    /// empty the path.
    EoClip,
    /// Replace the current path by the outline of its stroke.
    ReplacePathWithStrokedPath,
    /// Paint the gradient over the whole clip, its first and last colours
    /// carried on beyond its two ends.
    DrawLinearGradient(&'a LinearGradientBrush),
    /// Paint the gradient over the whole clip, its first and last colours
    /// carried on beyond its two circles.
    DrawRadialGradient(&'a RadialGradientBrush),
    SetTextDrawingMode(TextDrawingMode),
    /// Choose how images are sampled where they are drawn at another size.
    SetInterpolation(InterpolationMode),
    /// Draw the frame of the layout, in the colour if one is given.
    DrawFrame(&'a CoreGraphicsTextLayout, Option<Color>),
    /// Draw the image so that it fills the rectangle.
    DrawImage(&'a Image, Rect),
    /// Draw the part of the image that lies in the first rectangle so that
    /// it fills the second.
    DrawImageArea(&'a Image, Rect, Rect),
    /// Carry out everything issued so far.
    Flush,
}

} // verus!
