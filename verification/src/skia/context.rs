//! The render context: every drawing verb, as the plan of primitives that
//! realises it.

use vstd::prelude::*;
use vstd::string::*;
use crate::color::{Channels, Color, CHANNEL_MAX};
use crate::error::Error;
use crate::geometry::{Affine, Point, Rect, Scalar};
use crate::gradient::{check_stops, positions_ordered, valid_stops, FixedGradient};
use crate::image::{ImageFormat, InterpolationMode};
use crate::path::{PathEl, Shape};
use crate::skia::image::{alpha_type_of, raster_input_ok, Image, BYTES_PER_PIXEL};
use crate::skia::ops::{path_verbs, DrawStyle, FillType, Path, PathVerb, SkOp};
use crate::skia::paint::{
    color_to_skia_color, color_to_skia_color4f, paint_positions, shader_colors, shader_positions,
    shader_stops, Brush, Paint, Shader, TileMode,
};
use crate::skia::text::{SkiaText, SkiaTextLayout};
use crate::stroke::{LineCap, LineJoin, StrokeStyle};

verus! {

/// A render context for one surface.
#[derive(Debug)]
pub struct SkiaRenderContext {
    saved: usize,
    text: SkiaText,
    deferred: Option<Error>,
}

/// Whether a paint is the one that a valid gradient becomes: white,
/// smoothed at the edges, with the shader of the gradient, whose colours
/// and positions are those of the stops in the order given and go on
/// beyond the two ends. A radial gradient starts from a circle of radius
/// zero.
pub open spec fn is_gradient_paint(paint: Paint, gradient: FixedGradient) -> bool {
    &&& paint.color == (Channels { r: CHANNEL_MAX, g: CHANNEL_MAX, b: CHANNEL_MAX, a: CHANNEL_MAX })
    &&& paint.anti_alias
    &&& match gradient {
        FixedGradient::Linear(linear) => {
            &&& paint.shader matches Some(Shader::Linear { start, end, stops, tile_mode })
            &&& start == linear.start
            &&& end == linear.end
            &&& stops.colors@ == shader_colors(linear.stops@)
            &&& stops.positions@ == shader_positions(linear.stops@)
            &&& tile_mode == TileMode::Clamp
        },
        FixedGradient::Radial(radial) => {
            &&& paint.shader matches Some(
                Shader::TwoPointConical {
                    center,
                    origin_offset,
                    start_radius,
                    end_radius,
                    stops,
                    tile_mode,
                },
            )
            &&& center == radial.center
            &&& origin_offset == radial.origin_offset
            &&& start_radius == Scalar::zero()
            &&& end_radius == radial.radius
            &&& stops.colors@ == shader_colors(radial.stops@)
            &&& stops.positions@ == shader_positions(radial.stops@)
            &&& tile_mode == TileMode::Clamp
        },
    }
}

/// Whether a primitive draws the path of the elements, bounded as said,
/// with the brush, in the style given.
pub open spec fn draws_path(
    op: SkOp,
    elements: Seq<PathEl>,
    fill_type: FillType,
    brush: &Brush,
    style: DrawStyle,
) -> bool {
    &&& op matches SkOp::DrawPath(path, b, s)
    &&& path.verbs@ == path_verbs(elements)
    &&& path.fill_type == fill_type
    &&& b == brush
    &&& s == style
}

/// Whether a primitive intersects the clip with the path of the elements,
/// bounded by the nonzero rule.
pub open spec fn clips_to_path(op: SkOp, elements: Seq<PathEl>) -> bool {
    &&& op matches SkOp::ClipPath(path)
    &&& path.verbs@ == path_verbs(elements)
    &&& path.fill_type == FillType::Winding
}

/// The style of a stroke of the given width under a stroke style: cap and
/// join by their defaults where the style leaves them open, the dashes
/// where the style has any.
pub open spec fn styled_stroke<'a>(width: Scalar, style: &'a StrokeStyle) -> DrawStyle<'a> {
    DrawStyle::Stroke {
        width,
        cap: style.cap(),
        join: style.join(),
        dash: match &style.dash {
            Some(dash) => Some(dash),
            None => None,
        },
    }
}

/// The style of a stroke of the given width with a butt cap, a miter join
/// and no dashes.
pub open spec fn plain_stroke<'a>(width: Scalar) -> DrawStyle<'a> {
    DrawStyle::Stroke { width, cap: LineCap::Butt, join: LineJoin::Miter, dash: None }
}

/// Builds the path of a shape, call by call, bounded by the nonzero rule.
pub fn create_path(shape: &Shape) -> (path: Path)
    ensures
        path.verbs@ == path_verbs(shape.elements()),
        path.fill_type == FillType::Winding,
{
    let mut verbs: Vec<PathVerb> = Vec::new();
    match shape {
        Shape::Rect(r) => {
            verbs.push(PathVerb::MoveTo(Point { x: r.x0, y: r.y0 }));
            verbs.push(PathVerb::LineTo(Point { x: r.x1, y: r.y0 }));
            verbs.push(PathVerb::LineTo(Point { x: r.x1, y: r.y1 }));
            verbs.push(PathVerb::LineTo(Point { x: r.x0, y: r.y1 }));
            verbs.push(PathVerb::Close);
        },
        Shape::Path(bez_path) => {
            let mut i: usize = 0;
            while i < bez_path.len()
                invariant
                    i <= bez_path.len(),
                    verbs@ == path_verbs(bez_path@.subrange(0, i as int)),
                decreases bez_path.len() - i,
            {
                let verb = match bez_path[i] {
                    PathEl::MoveTo(p) => PathVerb::MoveTo(p),
                    PathEl::LineTo(p) => PathVerb::LineTo(p),
                    PathEl::CurveTo(cp1, cp2, ep) => PathVerb::CubicTo(cp1, cp2, ep),
                    PathEl::QuadTo(p1, p2) => PathVerb::QuadTo(p1, p2),
                    PathEl::ClosePath => PathVerb::Close,
                };
                verbs.push(verb);
                i += 1;
            }
            assert(bez_path@.subrange(0, i as int) == bez_path@);
        },
    }
    Path { verbs, fill_type: FillType::Winding }
}

impl SkiaRenderContext {
    /// The number of states that `save` has pushed and `restore` has not
    /// popped yet.
    pub closed spec fn saved_spec(&self) -> nat {
        self.saved as nat
    }

    /// A context for a surface.
    pub fn new() -> (ctx: SkiaRenderContext)
        ensures
            ctx.saved_spec() == 0,
            ctx.deferred_spec() is None,
    {
        SkiaRenderContext { saved: 0, text: SkiaText {  }, deferred: None }
    }

    /// The number of states saved and not yet restored.
    pub fn saved(&self) -> (n: usize)
        ensures
            n as nat == self.saved_spec(),
    {
        self.saved
    }

    /// The error that the context has put off and not reported yet, if
    /// there is one.
    pub closed spec fn deferred_spec(&self) -> Option<Error> {
        self.deferred
    }

    /// Puts an error off until the next `status`: one that came up while a
    /// plan was issued for a verb that returns nothing. Where an error is
    /// put off already, that one stays and this one is dropped.
    pub fn defer(&mut self, error: Error)
        ensures
            final(self).deferred_spec() == match old(self).deferred_spec() {
                Some(first) => Some(first),
                None => Some(error),
            },
            final(self).saved_spec() == old(self).saved_spec(),
    {
        if self.deferred.is_none() {
            self.deferred = Some(error);
        }
    }

    /// Reports the error that was put off since the last call, and forgets
    /// it; success where none was.
    pub fn status(&mut self) -> (r: Result<(), Error>)
        ensures
            r == match old(self).deferred_spec() {
                Some(error) => Err::<(), Error>(error),
                None => Ok::<(), Error>(()),
            },
            final(self).deferred_spec() is None,
            final(self).saved_spec() == old(self).saved_spec(),
    {
        match self.deferred.take() {
            Some(error) => Err(error),
            None => Ok(()),
        }
    }

    /// Fills the whole surface with a colour, whatever the clip and the
    /// transform in force, and leaves both as they were.
    pub fn clear<'a>(&self, color: Color) -> (plan: Vec<SkOp<'a>>)
        ensures
            plan@ == seq![SkOp::Clear(color.to_argb())],
    {
        let mut plan: Vec<SkOp<'a>> = Vec::new();
        plan.push(SkOp::Clear(color_to_skia_color(&color)));
        plan
    }

    /// The brush of one colour: a paint of that colour, smoothed at the
    /// edges, without a shader.
    pub fn solid_brush(&self, color: Color) -> (brush: Brush)
        ensures
            brush.paint.color == color.channels(),
            brush.paint.anti_alias,
            brush.paint.shader is None,
    {
        Brush {
            paint: Paint { color: color_to_skia_color4f(&color), anti_alias: true, shader: None },
        }
    }

    /// Makes the brush of a gradient.
    ///
    /// The stops must be acceptable: at least one, every position in the
    /// unit interval, no position before an earlier one. Then the brush is
    /// a white paint with the shader of the gradient. Otherwise the
    /// gradient is refused as invalid input.
    pub fn gradient(&self, gradient: FixedGradient) -> (r: Result<Brush, Error>)
        ensures
            match r {
                Ok(brush) => {
                    &&& valid_stops(gradient.stops())
                    &&& is_gradient_paint(brush.paint, gradient)
                    &&& positions_ordered(paint_positions(brush.paint))
                },
                Err(e) => e == Error::InvalidInput && !valid_stops(gradient.stops()),
            },
    {
        let white = Channels { r: CHANNEL_MAX, g: CHANNEL_MAX, b: CHANNEL_MAX, a: CHANNEL_MAX };
        let shader = match gradient {
            FixedGradient::Linear(linear) => {
                if !check_stops(&linear.stops) {
                    return Err(Error::InvalidInput);
                }
                Shader::Linear {
                    start: linear.start,
                    end: linear.end,
                    stops: shader_stops(&linear.stops),
                    tile_mode: TileMode::Clamp,
                }
            },
            FixedGradient::Radial(radial) => {
                if !check_stops(&radial.stops) {
                    return Err(Error::InvalidInput);
                }
                Shader::TwoPointConical {
                    center: radial.center,
                    origin_offset: radial.origin_offset,
                    start_radius: Scalar::zero(),
                    end_radius: radial.radius,
                    stops: shader_stops(&radial.stops),
                    tile_mode: TileMode::Clamp,
                }
            },
        };
        Ok(Brush { paint: Paint { color: white, anti_alias: true, shader: Some(shader) } })
    }

    /// Fills a shape by the nonzero rule: its path is drawn with the paint
    /// of the brush.
    pub fn fill<'a>(&self, shape: &Shape, brush: &'a Brush) -> (plan: Vec<SkOp<'a>>)
        ensures
            plan@.len() == 1,
            draws_path(plan@[0], shape.elements(), FillType::Winding, brush, DrawStyle::Fill),
    {
        let path = create_path(shape);
        let mut plan: Vec<SkOp<'a>> = Vec::new();
        plan.push(SkOp::DrawPath(path, brush, DrawStyle::Fill));
        plan
    }

    /// Fills a shape by the even-odd rule.
    pub fn fill_even_odd<'a>(&self, shape: &Shape, brush: &'a Brush) -> (plan: Vec<SkOp<'a>>)
        ensures
            plan@.len() == 1,
            draws_path(plan@[0], shape.elements(), FillType::EvenOdd, brush, DrawStyle::Fill),
    {
        let mut path = create_path(shape);
        path.fill_type = FillType::EvenOdd;
        let mut plan: Vec<SkOp<'a>> = Vec::new();
        plan.push(SkOp::DrawPath(path, brush, DrawStyle::Fill));
        plan
    }

    /// Intersects the clip with a shape.
    pub fn clip<'a>(&self, shape: &Shape) -> (plan: Vec<SkOp<'a>>)
        ensures
            plan@.len() == 1,
            clips_to_path(plan@[0], shape.elements()),
    {
        let path = create_path(shape);
        let mut plan: Vec<SkOp<'a>> = Vec::new();
        plan.push(SkOp::ClipPath(path));
        plan
    }

    /// Strokes the outline of a shape, `width` wide, with a butt cap and a
    /// miter join: its path is drawn with the paint of the brush, stroked.
    pub fn stroke<'a>(&self, shape: &Shape, brush: &'a Brush, width: Scalar) -> (plan: Vec<
        SkOp<'a>,
    >)
        ensures
            plan@.len() == 1,
            draws_path(
                plan@[0],
                shape.elements(),
                FillType::Winding,
                brush,
                plain_stroke(width),
            ),
    {
        let path = create_path(shape);
        let style = DrawStyle::Stroke {
            width,
            cap: LineCap::Butt,
            join: LineJoin::Miter,
            dash: None,
        };
        let mut plan: Vec<SkOp<'a>> = Vec::new();
        plan.push(SkOp::DrawPath(path, brush, style));
        plan
    }

    /// Strokes the outline of a shape in a style. The style belongs to this
    /// one drawing of the path and cannot outlast the call.
    pub fn stroke_styled<'a>(
        &self,
        shape: &Shape,
        brush: &'a Brush,
        width: Scalar,
        style: &'a StrokeStyle,
    ) -> (plan: Vec<SkOp<'a>>)
        ensures
            plan@.len() == 1,
            draws_path(
                plan@[0],
                shape.elements(),
                FillType::Winding,
                brush,
                styled_stroke(width, style),
            ),
    {
        let path = create_path(shape);
        let dash = match &style.dash {
            Some(dash) => Some(dash),
            None => None,
        };
        let draw_style = DrawStyle::Stroke { width, cap: style.cap(), join: style.join(), dash };
        let mut plan: Vec<SkOp<'a>> = Vec::new();
        plan.push(SkOp::DrawPath(path, brush, draw_style));
        plan
    }

    /// Pushes the transform and the clip.
    ///
    /// It fails, as a backend error, only where the count of saved states
    /// cannot grow; nothing is to be issued then.
    pub fn save<'a>(&mut self) -> (r: Result<Vec<SkOp<'a>>, Error>)
        ensures
            match r {
                Ok(plan) => {
                    &&& old(self).saved_spec() < usize::MAX
                    &&& final(self).saved_spec() == old(self).saved_spec() + 1
                    &&& final(self).deferred_spec() == old(self).deferred_spec()
                    &&& plan@ == seq![SkOp::Save]
                },
                Err(e) => {
                    &&& old(self).saved_spec() == usize::MAX
                    &&& e is BackendError
                    &&& *final(self) == *old(self)
                },
            },
    {
        if self.saved == usize::MAX {
            return Err(Error::BackendError(String::from_str("too many saved states")));
        }
        self.saved = self.saved + 1;
        let mut plan: Vec<SkOp<'a>> = Vec::new();
        plan.push(SkOp::Save);
        Ok(plan)
    }

    /// Pops the transform and the clip that the matching `save` pushed.
    ///
    /// Without a state saved and not yet restored the call is invalid
    /// input, and nothing is to be issued.
    pub fn restore<'a>(&mut self) -> (r: Result<Vec<SkOp<'a>>, Error>)
        ensures
            match r {
                Ok(plan) => {
                    &&& old(self).saved_spec() > 0
                    &&& final(self).saved_spec() == old(self).saved_spec() - 1
                    &&& final(self).deferred_spec() == old(self).deferred_spec()
                    &&& plan@ == seq![SkOp::Restore]
                },
                Err(e) => {
                    &&& old(self).saved_spec() == 0
                    &&& e == Error::InvalidInput
                    &&& *final(self) == *old(self)
                },
            },
    {
        if self.saved == 0 {
            return Err(Error::InvalidInput);
        }
        self.saved = self.saved - 1;
        let mut plan: Vec<SkOp<'a>> = Vec::new();
        plan.push(SkOp::Restore);
        Ok(plan)
    }

    /// Ends the drawing: the engine is to carry out everything issued.
    /// Calling it again asks for the same and changes nothing.
    pub fn finish<'a>(&self) -> (r: Result<Vec<SkOp<'a>>, Error>)
        ensures
            r matches Ok(plan) && plan@ == seq![SkOp::Flush],
    {
        let mut plan: Vec<SkOp<'a>> = Vec::new();
        plan.push(SkOp::Flush);
        Ok(plan)
    }

    /// Applies a map before the current transform; what was applied before
    /// stays in force.
    pub fn transform<'a>(&self, transform: Affine) -> (plan: Vec<SkOp<'a>>)
        ensures
            plan@ == seq![SkOp::Concat(transform)],
    {
        let mut plan: Vec<SkOp<'a>> = Vec::new();
        plan.push(SkOp::Concat(transform));
        plan
    }

    /// Describes the image of a raw pixel buffer, for the engine to make.
    ///
    /// A format that does not take four bytes to a pixel is not supported.
    /// A width or height beyond what the engine counts, a row too long to
    /// count, or a buffer whose length is not that of `width` by `height`
    /// pixels, is invalid input. Every other input gives the image of
    /// those pixels, byte for byte.
    pub fn make_image(&self, width: usize, height: usize, buf: &[u8], format: ImageFormat) -> (r:
        Result<Image, Error>)
        ensures
            match r {
                Ok(image) => {
                    &&& raster_input_ok(width, height, buf@.len() as int)
                    &&& image.width == width
                    &&& image.height == height
                    &&& Some(image.alpha_type) == alpha_type_of(format)
                    &&& image.row_bytes as int == width as int * BYTES_PER_PIXEL as int
                    &&& image.data@ == buf@
                },
                Err(e) => if alpha_type_of(format) is None {
                    e == Error::NotSupported
                } else {
                    e == Error::InvalidInput && !raster_input_ok(
                        width,
                        height,
                        buf@.len() as int,
                    )
                },
            },
    {
        Image::describe(width, height, buf, format)
    }

    /// Draws an image so that it fills a rectangle, stretched or squeezed
    /// where their sizes differ, sampled as asked.
    pub fn draw_image<'a>(&self, image: &'a Image, dst_rect: Rect, interp: InterpolationMode) -> (plan:
        Vec<SkOp<'a>>)
        ensures
            plan@ == seq![SkOp::DrawImageRect(image, None, dst_rect, interp)],
    {
        let mut plan: Vec<SkOp<'a>> = Vec::new();
        plan.push(SkOp::DrawImageRect(image, None, dst_rect, interp));
        plan
    }

    /// Draws the part of an image that lies in `src_rect` so that it fills
    /// `dst_rect`, sampled as asked.
    pub fn draw_image_area<'a>(
        &self,
        image: &'a Image,
        src_rect: Rect,
        dst_rect: Rect,
        interp: InterpolationMode,
    ) -> (plan: Vec<SkOp<'a>>)
        ensures
            plan@ == seq![SkOp::DrawImageRect(image, Some(src_rect), dst_rect, interp)],
    {
        let mut plan: Vec<SkOp<'a>> = Vec::new();
        plan.push(SkOp::DrawImageRect(image, Some(src_rect), dst_rect, interp));
        plan
    }

    /// The factory of fonts and layouts.
    pub fn text(&self) -> (text: SkiaText) {
        self.text
    }

    /// Draws a layout with the start of its baseline at `pos`: its text, in
    /// its font, with the paint of the brush.
    pub fn draw_text<'a>(&self, layout: &'a SkiaTextLayout, pos: Point, brush: &'a Brush) -> (plan:
        Vec<SkOp<'a>>)
        ensures
            plan@ == seq![SkOp::DrawText(layout, pos, brush)],
    {
        let mut plan: Vec<SkOp<'a>> = Vec::new();
        plan.push(SkOp::DrawText(layout, pos, brush));
        plan
    }
}

} // verus!
