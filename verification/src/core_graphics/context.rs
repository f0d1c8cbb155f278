//! The render context: every drawing verb, as the plan of primitives that
//! realises it.

use vstd::prelude::*;
use vstd::string::*;
use crate::color::Color;
use crate::core_graphics::brush::{
    brush_locations, brush_of, gradient_stops_to_cg_gradient, Brush, LinearGradientBrush,
    RadialGradientBrush,
};
use crate::core_graphics::image::{alpha_info_of, image_input_ok, Image, BITS_PER_COMPONENT};
use crate::core_graphics::ops::{CgOp, TextDrawingMode};
use crate::core_graphics::text::{CoreGraphicsText, CoreGraphicsTextLayout};
use crate::error::Error;
use crate::geometry::{Affine, Point, Rect, Scalar, Size};
use crate::gradient::{check_stops, positions_ordered, valid_stops, FixedGradient};
use crate::image::{ImageFormat, InterpolationMode};
use crate::path::{PathEl, Shape};
use crate::stroke::StrokeStyle;

verus! {

/// The primitive that appends one element to the current path.
pub open spec fn path_op<'a>(el: PathEl) -> CgOp<'a> {
    match el {
        PathEl::MoveTo(p) => CgOp::MoveToPoint(p),
        PathEl::LineTo(p) => CgOp::AddLineToPoint(p),
        PathEl::QuadTo(c, p) => CgOp::AddQuadCurveToPoint(c, p),
        PathEl::CurveTo(c1, c2, p) => CgOp::AddCurveToPoint(c1, c2, p),
        PathEl::ClosePath => CgOp::ClosePath,
    }
}

/// The primitives that append the elements to the current path, in order.
pub open spec fn path_ops<'a>(elements: Seq<PathEl>) -> Seq<CgOp<'a>> {
    Seq::new(elements.len(), |i: int| path_op(elements[i]))
}

/// The plan that makes the elements the current path.
pub open spec fn set_path_plan<'a>(elements: Seq<PathEl>) -> Seq<CgOp<'a>> {
    seq![CgOp::BeginPath] + path_ops(elements)
}

/// The plan that sets cap, join and dashes from a style: the cap and the
/// join always, by their defaults where the style leaves them open; the
/// dashes where the style has any.
pub open spec fn set_stroke_style_plan<'a>(style: &'a StrokeStyle) -> Seq<CgOp<'a>> {
    seq![CgOp::SetLineCap(style.cap()), CgOp::SetLineJoin(style.join())] + match &style.dash {
        Some(dash) => seq![CgOp::SetLineDash(dash)],
        None => Seq::empty(),
    }
}

/// The plan that intersects the clip with the stroke of the elements.
pub open spec fn set_stroked_path_clip_plan<'a>(elements: Seq<PathEl>) -> Seq<CgOp<'a>> {
    set_path_plan(elements) + seq![CgOp::ReplacePathWithStrokedPath, CgOp::Clip]
}

/// The plan that paints through a clip and leaves the graphics state as it
/// found it: save, narrow the clip, paint, restore.
pub open spec fn paint_through_clip_plan<'a>(clip: Seq<CgOp<'a>>, paint: CgOp<'a>) -> Seq<CgOp<'a>> {
    seq![CgOp::SaveState] + clip + seq![paint, CgOp::RestoreState]
}

/// The plan of the context's construction: nothing where the engine's
/// vertical axis already points down; otherwise a move by the height of the
/// surface and a mirroring, after which it does.
pub open spec fn setup_plan<'a>(size: Size, flipped: bool) -> Seq<CgOp<'a>> {
    if flipped {
        Seq::empty()
    } else {
        seq![
            CgOp::ConcatCtm(Affine::translate(Scalar::zero(), size.height)),
            CgOp::ConcatCtm(Affine::flip_y()),
        ]
    }
}

/// The plan of `clear`: between a save and a restore, the clip and the
/// transform are undone, and the rectangle of the surface is filled.
pub open spec fn clear_plan<'a>(size: Size, color: Color) -> Seq<CgOp<'a>> {
    seq![CgOp::SaveState] + seq![
        CgOp::ResetClip,
        CgOp::ResetCtm,
        CgOp::SetFillColor(color),
        CgOp::FillRect(Rect::from_origin_size(size)),
    ] + seq![CgOp::RestoreState]
}

/// The plan of a fill by the nonzero rule that goes through the path.
pub open spec fn fill_path_plan<'a>(elements: Seq<PathEl>, color: Color) -> Seq<CgOp<'a>> {
    seq![CgOp::SetFillColor(color)] + set_path_plan(elements) + seq![CgOp::FillPath]
}

/// The plan of a fill that goes through the engine's own rectangle.
pub open spec fn fill_rect_plan<'a>(rect: Rect, color: Color) -> Seq<CgOp<'a>> {
    seq![CgOp::SetFillColor(color), CgOp::FillRect(rect)]
}

/// The plan of `fill`.
pub open spec fn fill_plan<'a>(shape: &Shape, brush: &'a Brush) -> Seq<CgOp<'a>> {
    match brush {
        Brush::Solid(color) => match shape.as_rect() {
            Some(rect) => fill_rect_plan(rect, *color),
            None => fill_path_plan(shape.elements(), *color),
        },
        Brush::Linear(gradient) => paint_through_clip_plan(
            set_path_plan(shape.elements()) + seq![CgOp::Clip],
            CgOp::DrawLinearGradient(gradient),
        ),
        Brush::Radial(gradient) => paint_through_clip_plan(
            set_path_plan(shape.elements()) + seq![CgOp::Clip],
            CgOp::DrawRadialGradient(gradient),
        ),
    }
}

/// The plan of `fill_even_odd`.
pub open spec fn fill_even_odd_plan<'a>(shape: &Shape, brush: &'a Brush) -> Seq<CgOp<'a>> {
    match brush {
        Brush::Solid(color) => match shape.as_rect() {
            Some(rect) => fill_rect_plan(rect, *color),
            None => seq![CgOp::SetFillColor(*color)] + set_path_plan(shape.elements()) + seq![
                CgOp::EoFillPath,
            ],
        },
        Brush::Linear(gradient) => paint_through_clip_plan(
            set_path_plan(shape.elements()) + seq![CgOp::EoClip],
            CgOp::DrawLinearGradient(gradient),
        ),
        Brush::Radial(gradient) => paint_through_clip_plan(
            set_path_plan(shape.elements()) + seq![CgOp::EoClip],
            CgOp::DrawRadialGradient(gradient),
        ),
    }
}

/// The plan of `stroke`.
pub open spec fn stroke_plan<'a>(shape: &Shape, brush: &'a Brush, width: Scalar) -> Seq<CgOp<'a>> {
    seq![CgOp::SetLineWidth(width)] + match brush {
        Brush::Solid(color) => seq![CgOp::SetStrokeColor(*color)] + match shape.as_rect() {
            Some(rect) => seq![CgOp::StrokeRect(rect)],
            None => set_path_plan(shape.elements()) + seq![CgOp::StrokePath],
        },
        Brush::Linear(gradient) => paint_through_clip_plan(
            set_stroked_path_clip_plan(shape.elements()),
            CgOp::DrawLinearGradient(gradient),
        ),
        Brush::Radial(gradient) => paint_through_clip_plan(
            set_stroked_path_clip_plan(shape.elements()),
            CgOp::DrawRadialGradient(gradient),
        ),
    }
}

/// The plan of `stroke_styled`.
pub open spec fn stroke_styled_plan<'a>(
    shape: &Shape,
    brush: &'a Brush,
    width: Scalar,
    style: &'a StrokeStyle,
) -> Seq<CgOp<'a>> {
    seq![CgOp::SaveState] + set_stroke_style_plan(style) + stroke_plan(shape, brush, width)
        + seq![CgOp::RestoreState]
}

/// The plan of `clip`.
pub open spec fn clip_plan<'a>(shape: &Shape) -> Seq<CgOp<'a>> {
    match shape.as_rect() {
        Some(rect) => seq![CgOp::ClipToRect(rect)],
        None => set_path_plan(shape.elements()) + seq![CgOp::Clip],
    }
}

/// The plan that intersects the clip with the glyphs of a layout, and then
/// turns the vertical axis back, so that what is painted next is the right
/// way up.
pub open spec fn glyph_clip_plan<'a>(layout: &'a CoreGraphicsTextLayout) -> Seq<CgOp<'a>> {
    seq![
        CgOp::SetTextDrawingMode(TextDrawingMode::Clip),
        CgOp::DrawFrame(layout, None),
        CgOp::ConcatCtm(Affine::flip_y()),
    ]
}

/// The plan of `draw_text`.
pub open spec fn draw_text_plan<'a>(layout: &'a CoreGraphicsTextLayout, pos: Point, brush: &'a Brush)
    -> Seq<CgOp<'a>> {
    seq![
        CgOp::SaveState,
        CgOp::ConcatCtm(Affine::flip_y()),
        CgOp::ConcatCtm(Affine::translate(pos.x, pos.y.negated())),
    ] + match brush {
        Brush::Solid(color) => seq![
            CgOp::ConcatCtm(Affine::translate(Scalar::zero(), layout@.first_origin_y().negated())),
            CgOp::SetTextDrawingMode(TextDrawingMode::Fill),
            CgOp::DrawFrame(layout, Some(*color)),
        ],
        Brush::Linear(gradient) => glyph_clip_plan(layout) + seq![
            CgOp::DrawLinearGradient(gradient),
        ],
        Brush::Radial(gradient) => glyph_clip_plan(layout) + seq![
            CgOp::DrawRadialGradient(gradient),
        ],
    } + seq![CgOp::RestoreState]
}

/// The three maps that together mirror the band between the two horizontal
/// sides of a rectangle: they send the height `y` to `y0 + y1 - y`.
pub open spec fn mirror_rect_plan<'a>(rect: Rect) -> Seq<CgOp<'a>> {
    seq![
        CgOp::ConcatCtm(Affine::translate(Scalar::zero(), rect.y0)),
        CgOp::ConcatCtm(Affine::translate(Scalar::zero(), rect.y1)),
        CgOp::ConcatCtm(Affine::flip_y()),
    ]
}

/// The plan of `draw_image`.
pub open spec fn draw_image_plan<'a>(image: &'a Image, rect: Rect, interp: InterpolationMode) -> Seq<
    CgOp<'a>,
> {
    seq![CgOp::SaveState, CgOp::SetInterpolation(interp)] + mirror_rect_plan(rect) + seq![
        CgOp::DrawImage(image, rect),
        CgOp::RestoreState,
    ]
}

/// The plan of `draw_image_area`.
pub open spec fn draw_image_area_plan<'a>(
    image: &'a Image,
    src_rect: Rect,
    dst_rect: Rect,
    interp: InterpolationMode,
) -> Seq<CgOp<'a>> {
    seq![CgOp::SaveState, CgOp::SetInterpolation(interp)] + mirror_rect_plan(dst_rect) + seq![
        CgOp::DrawImageArea(image, src_rect, dst_rect),
        CgOp::RestoreState,
    ]
}

/// A render context for one surface.
#[derive(Debug)]
pub struct CoreGraphicsRenderContext {
    size: Size,
    saved: usize,
    text: CoreGraphicsText,
    deferred: Option<Error>,
}

/// Appends to `plan` the primitives that make the shape the current path.
fn set_path<'a>(plan: &mut Vec<CgOp<'a>>, shape: &Shape)
    ensures
        final(plan)@ == old(plan)@ + set_path_plan(shape.elements()),
{
    let ghost before = plan@;
    plan.push(CgOp::BeginPath);
    match shape {
        Shape::Rect(r) => {
            plan.push(CgOp::MoveToPoint(Point { x: r.x0, y: r.y0 }));
            plan.push(CgOp::AddLineToPoint(Point { x: r.x1, y: r.y0 }));
            plan.push(CgOp::AddLineToPoint(Point { x: r.x1, y: r.y1 }));
            plan.push(CgOp::AddLineToPoint(Point { x: r.x0, y: r.y1 }));
            plan.push(CgOp::ClosePath);
        },
        Shape::Path(elements) => {
            let mut i: usize = 0;
            while i < elements.len()
                invariant
                    i <= elements.len(),
                    plan@ == before + set_path_plan(elements@.subrange(0, i as int)),
                decreases elements.len() - i,
            {
                let op = match elements[i] {
                    PathEl::LineTo(point) => CgOp::AddLineToPoint(point),
                    PathEl::MoveTo(point) => CgOp::MoveToPoint(point),
                    PathEl::QuadTo(control_point, point) => CgOp::AddQuadCurveToPoint(
                        control_point,
                        point,
                    ),
                    PathEl::CurveTo(control_point1, control_point2, point) => {
                        CgOp::AddCurveToPoint(control_point1, control_point2, point)
                    },
                    PathEl::ClosePath => CgOp::ClosePath,
                };
                plan.push(op);
                i += 1;
            }
            assert(elements@.subrange(0, i as int) == elements@);
        },
    }
}

/// Appends to `plan` the primitives that set cap, join and dashes.
fn set_stroke_style<'a>(plan: &mut Vec<CgOp<'a>>, style: &'a StrokeStyle)
    ensures
        final(plan)@ == old(plan)@ + set_stroke_style_plan(style),
{
    plan.push(CgOp::SetLineCap(style.cap()));
    plan.push(CgOp::SetLineJoin(style.join()));
    match &style.dash {
        Some(dash) => {
            plan.push(CgOp::SetLineDash(dash));
        },
        None => {},
    }
}

/// Appends to `plan` the primitives that intersect the clip with the stroke
/// of the shape.
fn set_stroked_path_clip<'a>(plan: &mut Vec<CgOp<'a>>, shape: &Shape)
    ensures
        final(plan)@ == old(plan)@ + set_stroked_path_clip_plan(shape.elements()),
{
    set_path(plan, shape);
    plan.push(CgOp::ReplacePathWithStrokedPath);
    plan.push(CgOp::Clip);
}

/// Appends to `plan` the three maps that mirror the band of a rectangle.
fn mirror_rect<'a>(plan: &mut Vec<CgOp<'a>>, rect: Rect)
    ensures
        final(plan)@ == old(plan)@ + mirror_rect_plan(rect),
{
    plan.push(CgOp::ConcatCtm(Affine::translate(Scalar::zero(), rect.y0)));
    plan.push(CgOp::ConcatCtm(Affine::translate(Scalar::zero(), rect.y1)));
    plan.push(CgOp::ConcatCtm(Affine::flip_y()));
}

/// Appends the primitives of `stroke` to `plan`.
fn stroke_into<'a>(plan: &mut Vec<CgOp<'a>>, shape: &Shape, brush: &'a Brush, width: Scalar)
    ensures
        final(plan)@ == old(plan)@ + stroke_plan(shape, brush, width),
{
    plan.push(CgOp::SetLineWidth(width));
    match brush {
        Brush::Solid(color) => {
            plan.push(CgOp::SetStrokeColor(*color));
            match shape.as_rect() {
                Some(rect) => {
                    plan.push(CgOp::StrokeRect(rect));
                },
                None => {
                    set_path(plan, shape);
                    plan.push(CgOp::StrokePath);
                },
            }
        },
        Brush::Linear(gradient) => {
            plan.push(CgOp::SaveState);
            set_stroked_path_clip(plan, shape);
            plan.push(CgOp::DrawLinearGradient(gradient));
            plan.push(CgOp::RestoreState);
        },
        Brush::Radial(gradient) => {
            plan.push(CgOp::SaveState);
            set_stroked_path_clip(plan, shape);
            plan.push(CgOp::DrawRadialGradient(gradient));
            plan.push(CgOp::RestoreState);
        },
    }
}

impl CoreGraphicsRenderContext {
    /// The size of the surface.
    pub closed spec fn size_spec(&self) -> Size {
        self.size
    }

    /// The number of graphics states that `save` has pushed and `restore`
    /// has not popped yet.
    pub closed spec fn saved_spec(&self) -> nat {
        self.saved as nat
    }

    /// A context for a surface of the given size. `flipped` says whether the
    /// engine's vertical axis already points down from the top of the
    /// surface. The plan is to be issued before anything else.
    pub fn new<'a>(size: Size, flipped: bool) -> (r: (CoreGraphicsRenderContext, Vec<CgOp<'a>>))
        ensures
            r.0.size_spec() == size,
            r.0.saved_spec() == 0,
            r.0.deferred_spec() is None,
            r.1@ == setup_plan(size, flipped),
    {
        let mut plan: Vec<CgOp<'a>> = Vec::new();
        if !flipped {
            plan.push(CgOp::ConcatCtm(Affine::translate(Scalar::zero(), size.height)));
            plan.push(CgOp::ConcatCtm(Affine::flip_y()));
        }
        (CoreGraphicsRenderContext { size, saved: 0, text: CoreGraphicsText::new(), deferred: None }, plan)
    }

    /// The size of the surface.
    #[verifier::when_used_as_spec(size_spec)]
    pub fn size(&self) -> (size: Size)
        ensures
            size == self.size_spec(),
    {
        self.size
    }

    /// The number of graphics states saved and not yet restored.
    pub fn saved(&self) -> (n: usize)
        ensures
            n as nat == self.saved_spec(),
    {
        self.saved
    }

    /// The error that the context has put off and not reported yet, if
    /// there is one.
    pub closed spec fn deferred_spec(&self) -> Option<Error> {
        self.deferred
    }

    /// Puts an error off until the next `status`: one that came up while a
    /// plan was issued for a verb that returns nothing. Where an error is
    /// put off already, that one stays and this one is dropped.
    pub fn defer(&mut self, error: Error)
        ensures
            final(self).deferred_spec() == match old(self).deferred_spec() {
                Some(first) => Some(first),
                None => Some(error),
            },
            final(self).saved_spec() == old(self).saved_spec(),
            final(self).size_spec() == old(self).size_spec(),
    {
        if self.deferred.is_none() {
            self.deferred = Some(error);
        }
    }

    /// Reports the error that was put off since the last call, and forgets
    /// it; success where none was.
    pub fn status(&mut self) -> (r: Result<(), Error>)
        ensures
            r == match old(self).deferred_spec() {
                Some(error) => Err::<(), Error>(error),
                None => Ok::<(), Error>(()),
            },
            final(self).deferred_spec() is None,
            final(self).saved_spec() == old(self).saved_spec(),
            final(self).size_spec() == old(self).size_spec(),
    {
        match self.deferred.take() {
            Some(error) => Err(error),
            None => Ok(()),
        }
    }

    /// The brush of one colour.
    pub fn solid_brush(&self, color: Color) -> (brush: Brush)
        ensures
            brush == Brush::Solid(color),
    {
        Brush::Solid(color)
    }

    /// Makes the brush of a gradient.
    ///
    /// The stops must be acceptable: at least one, every position in the
    /// unit interval, no position before an earlier one. Then the brush
    /// holds the colours of the stops as components and their positions as
    /// locations, in the order given, and the geometry of the gradient: for
    /// a radial gradient a start circle of radius zero. Otherwise the
    /// gradient is refused as invalid input.
    pub fn gradient(&self, gradient: FixedGradient) -> (r: Result<Brush, Error>)
        ensures
            match r {
                Ok(brush) => {
                    &&& valid_stops(gradient.stops())
                    &&& brush@ == brush_of(gradient)
                    &&& !(brush is Solid)
                    &&& positions_ordered(brush_locations(brush@))
                },
                Err(e) => e == Error::InvalidInput && !valid_stops(gradient.stops()),
            },
    {
        match gradient {
            FixedGradient::Linear(linear) => {
                if !check_stops(&linear.stops) {
                    return Err(Error::InvalidInput);
                }
                let cg_gradient = gradient_stops_to_cg_gradient(&linear.stops);
                Ok(
                    Brush::Linear(
                        LinearGradientBrush {
                            gradient: cg_gradient,
                            start: linear.start,
                            end: linear.end,
                        },
                    ),
                )
            },
            FixedGradient::Radial(radial) => {
                if !check_stops(&radial.stops) {
                    return Err(Error::InvalidInput);
                }
                let cg_gradient = gradient_stops_to_cg_gradient(&radial.stops);
                Ok(
                    Brush::Radial(
                        RadialGradientBrush {
                            gradient: cg_gradient,
                            center: radial.center,
                            origin_offset: radial.origin_offset,
                            start_radius: Scalar::zero(),
                            end_radius: radial.radius,
                        },
                    ),
                )
            },
        }
    }

    /// Fills the whole surface with a colour, whatever the clip and the
    /// transform in force, and leaves both as they were.
    pub fn clear<'a>(&self, color: Color) -> (plan: Vec<CgOp<'a>>)
        ensures
            plan@ == clear_plan(self.size_spec(), color),
    {
        let mut plan: Vec<CgOp<'a>> = Vec::new();
        plan.push(CgOp::SaveState);
        plan.push(CgOp::ResetClip);
        plan.push(CgOp::ResetCtm);
        plan.push(CgOp::SetFillColor(color));
        plan.push(CgOp::FillRect(Rect::from_origin_size(self.size)));
        plan.push(CgOp::RestoreState);
        plan
    }

    /// Strokes the outline of a shape, `width` wide.
    ///
    /// With a solid brush the engine strokes in that colour: a rectangle by
    /// its own primitive, any other shape as a path. With a gradient the
    /// stroke becomes the clip and the gradient is painted through it,
    /// between a save and a restore.
    pub fn stroke<'a>(&self, shape: &Shape, brush: &'a Brush, width: Scalar) -> (plan: Vec<
        CgOp<'a>,
    >)
        ensures
            plan@ == stroke_plan(shape, brush, width),
    {
        let mut plan: Vec<CgOp<'a>> = Vec::new();
        stroke_into(&mut plan, shape, brush, width);
        plan
    }

    /// Strokes the outline of a shape in a style. Cap, join and dashes are
    /// set between a save and a restore, so that none of them outlasts the
    /// call.
    pub fn stroke_styled<'a>(
        &self,
        shape: &Shape,
        brush: &'a Brush,
        width: Scalar,
        style: &'a StrokeStyle,
    ) -> (plan: Vec<CgOp<'a>>)
        ensures
            plan@ == stroke_styled_plan(shape, brush, width, style),
    {
        let mut plan: Vec<CgOp<'a>> = Vec::new();
        plan.push(CgOp::SaveState);
        set_stroke_style(&mut plan, style);
        stroke_into(&mut plan, shape, brush, width);
        plan.push(CgOp::RestoreState);
        plan
    }

    /// Fills a shape by the nonzero rule.
    ///
    /// With a solid brush the engine fills in that colour: a rectangle by
    /// its own primitive, any other shape as a path. With a gradient the
    /// shape becomes the clip and the gradient is painted through it,
    /// between a save and a restore.
    pub fn fill<'a>(&self, shape: &Shape, brush: &'a Brush) -> (plan: Vec<CgOp<'a>>)
        ensures
            plan@ == fill_plan(shape, brush),
    {
        let mut plan: Vec<CgOp<'a>> = Vec::new();
        match brush {
            Brush::Solid(color) => {
                plan.push(CgOp::SetFillColor(*color));
                match shape.as_rect() {
                    Some(rect) => {
                        plan.push(CgOp::FillRect(rect));
                    },
                    None => {
                        set_path(&mut plan, shape);
                        plan.push(CgOp::FillPath);
                    },
                }
            },
            Brush::Linear(gradient) => {
                plan.push(CgOp::SaveState);
                set_path(&mut plan, shape);
                plan.push(CgOp::Clip);
                plan.push(CgOp::DrawLinearGradient(gradient));
                plan.push(CgOp::RestoreState);
            },
            Brush::Radial(gradient) => {
                plan.push(CgOp::SaveState);
                set_path(&mut plan, shape);
                plan.push(CgOp::Clip);
                plan.push(CgOp::DrawRadialGradient(gradient));
                plan.push(CgOp::RestoreState);
            },
        }
        plan
    }

    /// Fills a shape by the even-odd rule; otherwise as `fill` does.
    pub fn fill_even_odd<'a>(&self, shape: &Shape, brush: &'a Brush) -> (plan: Vec<CgOp<'a>>)
        ensures
            plan@ == fill_even_odd_plan(shape, brush),
    {
        let mut plan: Vec<CgOp<'a>> = Vec::new();
        match brush {
            Brush::Solid(color) => {
                plan.push(CgOp::SetFillColor(*color));
                match shape.as_rect() {
                    Some(rect) => {
                        plan.push(CgOp::FillRect(rect));
                    },
                    None => {
                        set_path(&mut plan, shape);
                        plan.push(CgOp::EoFillPath);
                    },
                }
            },
            Brush::Linear(gradient) => {
                plan.push(CgOp::SaveState);
                set_path(&mut plan, shape);
                plan.push(CgOp::EoClip);
                plan.push(CgOp::DrawLinearGradient(gradient));
                plan.push(CgOp::RestoreState);
            },
            Brush::Radial(gradient) => {
                plan.push(CgOp::SaveState);
                set_path(&mut plan, shape);
                plan.push(CgOp::EoClip);
                plan.push(CgOp::DrawRadialGradient(gradient));
                plan.push(CgOp::RestoreState);
            },
        }
        plan
    }

    /// Intersects the clip with a shape: a rectangle by the engine's own
    /// primitive, any other shape as a path.
    pub fn clip<'a>(&self, shape: &Shape) -> (plan: Vec<CgOp<'a>>)
        ensures
            plan@ == clip_plan(shape),
    {
        let mut plan: Vec<CgOp<'a>> = Vec::new();
        match shape.as_rect() {
            Some(rect) => {
                plan.push(CgOp::ClipToRect(rect));
            },
            None => {
                set_path(&mut plan, shape);
                plan.push(CgOp::Clip);
            },
        }
        plan
    }

    /// The factory of fonts and layouts.
    pub fn text(&self) -> (text: CoreGraphicsText) {
        self.text
    }

    /// Draws a layout with the start of its first baseline at `pos`.
    ///
    /// Between a save and a restore the vertical axis is mirrored and the
    /// origin moved to `pos`. With a solid brush the origin moves on by the
    /// first line's baseline, and the frame is drawn filled in that colour.
    /// With a gradient the glyphs become the clip and the gradient is
    /// painted through it.
    pub fn draw_text<'a>(&self, layout: &'a CoreGraphicsTextLayout, pos: Point, brush: &'a Brush)
        -> (plan: Vec<CgOp<'a>>)
        ensures
            plan@ == draw_text_plan(layout, pos, brush),
    {
        let mut plan: Vec<CgOp<'a>> = Vec::new();
        plan.push(CgOp::SaveState);
        plan.push(CgOp::ConcatCtm(Affine::flip_y()));
        plan.push(CgOp::ConcatCtm(Affine::translate(pos.x, pos.y.negated())));
        match brush {
            Brush::Solid(color) => {
                let origin_y = layout.first_origin_y();
                plan.push(CgOp::ConcatCtm(Affine::translate(Scalar::zero(), origin_y.negated())));
                plan.push(CgOp::SetTextDrawingMode(TextDrawingMode::Fill));
                plan.push(CgOp::DrawFrame(layout, Some(*color)));
            },
            Brush::Linear(gradient) => {
                plan.push(CgOp::SetTextDrawingMode(TextDrawingMode::Clip));
                plan.push(CgOp::DrawFrame(layout, None));
                plan.push(CgOp::ConcatCtm(Affine::flip_y()));
                plan.push(CgOp::DrawLinearGradient(gradient));
            },
            Brush::Radial(gradient) => {
                plan.push(CgOp::SetTextDrawingMode(TextDrawingMode::Clip));
                plan.push(CgOp::DrawFrame(layout, None));
                plan.push(CgOp::ConcatCtm(Affine::flip_y()));
                plan.push(CgOp::DrawRadialGradient(gradient));
            },
        }
        plan.push(CgOp::RestoreState);
        plan
    }

    /// Pushes the graphics state.
    ///
    /// It fails, as a backend error, only where the count of saved states
    /// cannot grow; nothing is to be issued then.
    pub fn save<'a>(&mut self) -> (r: Result<Vec<CgOp<'a>>, Error>)
        ensures
            final(self).size_spec() == old(self).size_spec(),
            match r {
                Ok(plan) => {
                    &&& old(self).saved_spec() < usize::MAX
                    &&& final(self).saved_spec() == old(self).saved_spec() + 1
                    &&& final(self).deferred_spec() == old(self).deferred_spec()
                    &&& plan@ == seq![CgOp::SaveState]
                },
                Err(e) => {
                    &&& old(self).saved_spec() == usize::MAX
                    &&& e is BackendError
                    &&& *final(self) == *old(self)
                },
            },
    {
        if self.saved == usize::MAX {
            return Err(Error::BackendError(String::from_str("too many saved states")));
        }
        self.saved = self.saved + 1;
        let mut plan: Vec<CgOp<'a>> = Vec::new();
        plan.push(CgOp::SaveState);
        Ok(plan)
    }

    /// Pops the graphics state that the matching `save` pushed.
    ///
    /// Without a state saved and not yet restored the call is invalid
    /// input, and nothing is to be issued.
    pub fn restore<'a>(&mut self) -> (r: Result<Vec<CgOp<'a>>, Error>)
        ensures
            final(self).size_spec() == old(self).size_spec(),
            match r {
                Ok(plan) => {
                    &&& old(self).saved_spec() > 0
                    &&& final(self).saved_spec() == old(self).saved_spec() - 1
                    &&& final(self).deferred_spec() == old(self).deferred_spec()
                    &&& plan@ == seq![CgOp::RestoreState]
                },
                Err(e) => {
                    &&& old(self).saved_spec() == 0
                    &&& e == Error::InvalidInput
                    &&& *final(self) == *old(self)
                },
            },
    {
        if self.saved == 0 {
            return Err(Error::InvalidInput);
        }
        self.saved = self.saved - 1;
        let mut plan: Vec<CgOp<'a>> = Vec::new();
        plan.push(CgOp::RestoreState);
        Ok(plan)
    }

    /// Ends the drawing: the engine is to carry out everything issued.
    /// Calling it again asks for the same and changes nothing.
    pub fn finish<'a>(&self) -> (r: Result<Vec<CgOp<'a>>, Error>)
        ensures
            r matches Ok(plan) && plan@ == seq![CgOp::Flush],
    {
        let mut plan: Vec<CgOp<'a>> = Vec::new();
        plan.push(CgOp::Flush);
        Ok(plan)
    }

    /// Applies a map before the current transform; what was applied before
    /// stays in force.
    pub fn transform<'a>(&self, transform: Affine) -> (plan: Vec<CgOp<'a>>)
        ensures
            plan@ == seq![CgOp::ConcatCtm(transform)],
    {
        let mut plan: Vec<CgOp<'a>> = Vec::new();
        plan.push(CgOp::ConcatCtm(transform));
        plan
    }

    /// Makes an image from a raw pixel buffer.
    ///
    /// A format without a layout is not supported. A buffer whose length is
    /// not that of `width` by `height` pixels of the format, or a row too
    /// long to count, is invalid input. Every other input gives the image
    /// of those pixels, byte for byte.
    pub fn make_image(&self, width: usize, height: usize, buf: &[u8], format: ImageFormat) -> (r:
        Result<Image, Error>)
        ensures
            match r {
                Ok(image) => {
                    &&& image_input_ok(width, height, buf@.len() as int, format)
                    &&& image.width == width
                    &&& image.height == height
                    &&& image.bits_per_component == BITS_PER_COMPONENT
                    &&& Some(image.bits_per_pixel / 8) == format.bytes_per_pixel()
                    &&& image.bits_per_pixel % 8 == 0
                    &&& image.bytes_per_row as int == width as int * (image.bits_per_pixel
                        / 8) as int
                    &&& image.alpha == alpha_info_of(format)
                    &&& image.should_interpolate
                    &&& image.data@ == buf@
                },
                Err(e) => {
                    &&& !image_input_ok(width, height, buf@.len() as int, format)
                    &&& e == if format.bytes_per_pixel() is None {
                        Error::NotSupported
                    } else {
                        Error::InvalidInput
                    }
                },
            },
    {
        Image::checked_new(width, height, buf, format)
    }

    /// Draws an image so that it fills a rectangle, stretched or squeezed
    /// where their sizes differ, and sampled as asked.
    ///
    /// The engine draws images bottom up. So, between a save and a restore,
    /// the band of the rectangle is mirrored first.
    pub fn draw_image<'a>(&self, image: &'a Image, rect: Rect, interp: InterpolationMode) -> (plan:
        Vec<CgOp<'a>>)
        ensures
            plan@ == draw_image_plan(image, rect, interp),
    {
        let mut plan: Vec<CgOp<'a>> = Vec::new();
        plan.push(CgOp::SaveState);
        plan.push(CgOp::SetInterpolation(interp));
        mirror_rect(&mut plan, rect);
        plan.push(CgOp::DrawImage(image, rect));
        plan.push(CgOp::RestoreState);
        plan
    }

    /// Draws the part of an image that lies in `src_rect` so that it fills
    /// `dst_rect`, sampled as asked.
    pub fn draw_image_area<'a>(
        &self,
        image: &'a Image,
        src_rect: Rect,
        dst_rect: Rect,
        interp: InterpolationMode,
    ) -> (plan: Vec<CgOp<'a>>)
        ensures
            plan@ == draw_image_area_plan(image, src_rect, dst_rect, interp),
    {
        let mut plan: Vec<CgOp<'a>> = Vec::new();
        plan.push(CgOp::SaveState);
        plan.push(CgOp::SetInterpolation(interp));
        mirror_rect(&mut plan, dst_rect);
        plan.push(CgOp::DrawImageArea(image, src_rect, dst_rect));
        plan.push(CgOp::RestoreState);
        plan
    }

    /// Draws a blurred rectangle. This backend has no blur: nothing is
    /// drawn.
    pub fn blurred_rect<'a>(&self, rect: Rect, blur_radius: Scalar, brush: &'a Brush) -> (plan:
        Vec<CgOp<'a>>)
        ensures
            plan@ == Seq::<CgOp<'a>>::empty(),
    {
        Vec::new()
    }
}

} // verus!
