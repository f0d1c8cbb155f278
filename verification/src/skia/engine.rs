//! What the primitives mean: a model of the canvas, the step that each
//! primitive makes in it, and what the plans of the render context do to
//! it.

use vstd::prelude::*;
use crate::geometry::{Affine, Point, Rect};
use crate::image::InterpolationMode;
use crate::path::PathEl;
use crate::skia::context::{clips_to_path, draws_path};
use crate::skia::image::Image;
use crate::skia::ops::{path_verbs, DrawStyle, FillType, PathVerb, SkOp};
use crate::skia::paint::Brush;
use crate::skia::text::SkiaTextLayout;

verus! {

/// The area that a path bounds, under the maps in force when it was used.
pub struct PathArea {
    pub verbs: Seq<PathVerb>,
    pub fill_type: FillType,
    pub transform: Seq<Affine>,
}

/// What `Save` pushes and `Restore` pops.
pub struct CanvasState {
    /// The maps concatenated so far, in the order of their concatenation:
    /// a point goes through the last of them first.
    pub transform: Seq<Affine>,
    /// The areas that the clip is the intersection of.
    pub clip: Seq<PathArea>,
}

/// What was drawn.
pub enum Mark {
    /// The colour, given as an ARGB word, on every pixel of the surface.
    Cleared(u32),
    /// The text of a layout, with the paint of a brush, from a point under
    /// the maps given.
    Text(SkiaTextLayout, Point, Brush, Seq<Affine>),
    /// A path, with the paint of a brush, in a style.
    Path(PathArea, Brush, DrawStyle<'static>),
    /// An image, or the part of it inside the first rectangle, into the
    /// second rectangle under the maps given.
    Picture(Image, Option<Rect>, Rect, InterpolationMode, Seq<Affine>),
}

/// One act of drawing: what was drawn, and the clip that held it in.
pub struct Drawn {
    pub mark: Mark,
    pub clip: Seq<PathArea>,
}

/// The state of the canvas.
pub struct Canvas {
    pub current: CanvasState,
    /// The states pushed and not yet popped, the latest last.
    pub saved: Seq<CanvasState>,
    /// Everything drawn so far, the latest last.
    pub drawn: Seq<Drawn>,
    /// How many of the acts of drawing the engine was told to carry out.
    pub flushed: nat,
}

impl Canvas {
    /// The state with one act of drawing more.
    pub open spec fn draw(self, mark: Mark) -> Canvas {
        Canvas { drawn: self.drawn.push(Drawn { mark, clip: self.current.clip }), ..self }
    }
}

/// The state after one primitive.
pub open spec fn sk_step(c: Canvas, op: SkOp<'static>) -> Canvas {
    match op {
        SkOp::Clear(argb) => Canvas {
            drawn: c.drawn.push(Drawn { mark: Mark::Cleared(argb), clip: Seq::empty() }),
            ..c
        },
        SkOp::DrawText(layout, pos, brush) => c.draw(
            Mark::Text(*layout, pos, *brush, c.current.transform),
        ),
        SkOp::DrawPath(path, brush, style) => c.draw(
            Mark::Path(
                PathArea {
                    verbs: path.verbs@,
                    fill_type: path.fill_type,
                    transform: c.current.transform,
                },
                *brush,
                style,
            ),
        ),
        SkOp::ClipPath(path) => Canvas {
            current: CanvasState {
                clip: c.current.clip.push(
                    PathArea {
                        verbs: path.verbs@,
                        fill_type: path.fill_type,
                        transform: c.current.transform,
                    },
                ),
                ..c.current
            },
            ..c
        },
        SkOp::Save => Canvas { saved: c.saved.push(c.current), ..c },
        SkOp::Restore => if c.saved.len() > 0 {
            Canvas { current: c.saved.last(), saved: c.saved.drop_last(), ..c }
        } else {
            c
        },
        SkOp::Concat(m) => Canvas {
            current: CanvasState { transform: c.current.transform.push(m), ..c.current },
            ..c
        },
        SkOp::DrawImageRect(image, src, dst, interp) => c.draw(
            Mark::Picture(*image, src, dst, interp, c.current.transform),
        ),
        SkOp::Flush => Canvas { flushed: c.drawn.len(), ..c },
    }
}

/// The state after a plan.
pub open spec fn sk_run(c: Canvas, plan: Seq<SkOp<'static>>) -> Canvas
    decreases plan.len(),
{
    if plan.len() == 0 {
        c
    } else {
        sk_step(sk_run(c, plan.drop_last()), plan.last())
    }
}

/// A plan of one primitive makes its step.
pub proof fn lemma_run_single(c: Canvas, plan: Seq<SkOp<'static>>)
    requires
        plan.len() == 1,
    ensures
        sk_run(c, plan) == sk_step(c, plan[0]),
{
    assert(plan.drop_last().len() == 0);
    assert(sk_run(c, plan.drop_last()) == c);
    assert(plan.last() == plan[0]);
}

/// A save followed at once by a restore leaves the canvas as it was: the
/// transform, the clip, the stack.
pub proof fn lemma_save_restore(c: Canvas)
    ensures
        sk_run(sk_run(c, seq![SkOp::Save]), seq![SkOp::Restore]) == c,
{
    lemma_run_single(c, seq![SkOp::Save]);
    let saved = sk_step(c, SkOp::Save);
    lemma_run_single(saved, seq![SkOp::Restore]);
    assert(saved.saved.drop_last() == c.saved);
}

/// A plan that draws one path draws it under the transform and the clip in
/// force, and leaves both and the stack as they were: no style outlasts
/// the call.
pub proof fn lemma_draw_path_keeps_state(
    c: Canvas,
    plan: Seq<SkOp<'static>>,
    elements: Seq<PathEl>,
    fill_type: FillType,
    brush: &'static Brush,
    style: DrawStyle<'static>,
)
    requires
        plan.len() == 1,
        draws_path(plan[0], elements, fill_type, brush, style),
    ensures
        sk_run(c, plan) == c.draw(
            Mark::Path(
                PathArea { verbs: path_verbs(elements), fill_type, transform: c.current.transform },
                *brush,
                style,
            ),
        ),
        sk_run(c, plan).current == c.current,
        sk_run(c, plan).saved == c.saved,
{
    lemma_run_single(c, plan);
}

/// A plan that clips to one path narrows the clip by the area of that path
/// under the transform in force, and changes nothing else.
pub proof fn lemma_clip_path(c: Canvas, plan: Seq<SkOp<'static>>, elements: Seq<PathEl>)
    requires
        plan.len() == 1,
        clips_to_path(plan[0], elements),
    ensures
        sk_run(c, plan).current.transform == c.current.transform,
        sk_run(c, plan).current.clip == c.current.clip.push(
            PathArea {
                verbs: path_verbs(elements),
                fill_type: FillType::Winding,
                transform: c.current.transform,
            },
        ),
        sk_run(c, plan).saved == c.saved,
        sk_run(c, plan).drawn == c.drawn,
{
    lemma_run_single(c, plan);
}

/// `clear` writes the colour to every pixel of the surface, whatever the
/// clip and the transform in force, and leaves both and the stack as they
/// were.
pub proof fn lemma_clear(c: Canvas, argb: u32)
    ensures
        sk_run(c, seq![SkOp::Clear(argb)]) == (Canvas {
            drawn: c.drawn.push(Drawn { mark: Mark::Cleared(argb), clip: Seq::empty() }),
            ..c
        }),
{
    lemma_run_single(c, seq![SkOp::Clear(argb)]);
}

/// `draw_text` draws the text of the layout once, under the transform and
/// the clip in force, and leaves both and the stack as they were.
pub proof fn lemma_draw_text(
    c: Canvas,
    layout: &'static SkiaTextLayout,
    pos: Point,
    brush: &'static Brush,
)
    ensures
        sk_run(c, seq![SkOp::DrawText(layout, pos, brush)]) == c.draw(
            Mark::Text(*layout, pos, *brush, c.current.transform),
        ),
{
    lemma_run_single(c, seq![SkOp::DrawText(layout, pos, brush)]);
}

} // verus!
