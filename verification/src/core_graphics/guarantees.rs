//! What the plans of the render context do to the engine, proved of the
//! model.

use vstd::prelude::*;
use crate::color::Color;
use crate::core_graphics::brush::Brush;
use crate::core_graphics::context::{
    clear_plan, clip_plan, draw_image_plan, draw_text_plan, fill_path_plan, fill_plan,
    fill_rect_plan, mirror_rect_plan, path_op, path_ops, set_path_plan, set_stroke_style_plan,
    set_stroked_path_clip_plan, stroke_plan, stroke_styled_plan,
};
use crate::core_graphics::engine::{
    cg_run, cg_step, lemma_run_concat, lemma_run_four, lemma_run_one, lemma_run_three,
    lemma_run_two, lemma_run_unfold, placed, Engine, GraphicsState, Painted, PlacedEl, Region,
    Source, Winding,
};
use crate::core_graphics::image::Image;
use crate::core_graphics::ops::CgOp;
use crate::core_graphics::text::CoreGraphicsTextLayout;
use crate::geometry::{Affine, Point, Rect, Scalar, Size};
use crate::image::InterpolationMode;
use crate::path::{rect_path, PathEl, Shape};
use crate::stroke::StrokeStyle;

verus! {

/// Appending the elements of a path puts them on the current path, each
/// under the maps in force, and changes nothing else.
pub proof fn lemma_path_ops(e: Engine, elements: Seq<PathEl>)
    ensures
        cg_run(e, path_ops(elements)) == (Engine {
            path: e.path + placed(elements, e.current.transform),
            ..e
        }),
    decreases elements.len(),
{
    lemma_run_unfold();
    if elements.len() == 0 {
        assert(path_ops(elements) == Seq::<CgOp>::empty());
        assert(e.path + placed(elements, e.current.transform) == e.path);
    } else {
        let front = elements.drop_last();
        let last = elements.last();
        lemma_path_ops(e, front);
        assert(path_ops(elements) == path_ops(front).push(path_op(last)));
        let mid = cg_run(e, path_ops(front));
        assert(cg_step(mid, path_op(last)) == mid.append(last));
        assert(mid.path.push(PlacedEl { el: last, transform: e.current.transform }) == e.path
            + placed(elements, e.current.transform));
    }
}

/// Setting the path makes the elements the current path, each under the
/// maps in force, and changes nothing else.
pub proof fn lemma_set_path(e: Engine, elements: Seq<PathEl>)
    ensures
        cg_run(e, set_path_plan(elements)) == (Engine {
            path: placed(elements, e.current.transform),
            stroked: None,
            ..e
        }),
{
    lemma_run_unfold();
    lemma_run_concat(e, seq![CgOp::BeginPath], path_ops(elements));
    let begun = cg_run(e, seq![CgOp::BeginPath]);
    assert(begun == cg_step(e, CgOp::BeginPath));
    lemma_path_ops(begun, elements);
    assert(Seq::<PlacedEl>::empty() + placed(elements, e.current.transform) == placed(
        elements,
        e.current.transform,
    ));
}

/// A save followed at once by a restore leaves the engine as it was: the
/// transform, the clip, every attribute of the graphics state, the stack.
pub proof fn lemma_save_restore(e: Engine)
    ensures
        cg_run(cg_run(e, seq![CgOp::SaveState]), seq![CgOp::RestoreState]) == e,
        cg_run(e, seq![CgOp::SaveState, CgOp::RestoreState]) == e,
{
    lemma_run_unfold();
    lemma_run_two(e, CgOp::SaveState, CgOp::RestoreState);
    let saved = cg_step(e, CgOp::SaveState);
    assert(saved.saved.drop_last() == e.saved);
    assert(cg_step(saved, CgOp::RestoreState) == e);
}

/// Filling a rectangle by the engine's own primitive and filling its
/// outline as a path take the engine to the same state: the same paint in
/// the same area under the same clip.
pub proof fn lemma_fill_rect_as_path(e: Engine, rect: Rect, color: Color)
    ensures
        cg_run(e, fill_rect_plan(rect, color)) == cg_run(
            e,
            fill_path_plan(rect_path(rect), color),
        ),
{
    lemma_run_unfold();
    lemma_run_two(e, CgOp::SetFillColor(color), CgOp::FillRect(rect));
    let colored = cg_step(e, CgOp::SetFillColor(color));
    assert(cg_run(e, seq![CgOp::SetFillColor(color)]) == colored);
    lemma_run_concat(
        e,
        seq![CgOp::SetFillColor(color)] + set_path_plan(rect_path(rect)),
        seq![CgOp::FillPath],
    );
    lemma_run_concat(e, seq![CgOp::SetFillColor(color)], set_path_plan(rect_path(rect)));
    lemma_set_path(colored, rect_path(rect));
}

/// `fill` paints a rectangle alike whether the shape comes as a rectangle
/// or as the path of one.
pub proof fn lemma_fill_rect_shape(e: Engine, rect: Rect, as_rect: Shape, as_path: Shape, brush: Brush)
    requires
        as_rect == Shape::Rect(rect),
        as_path is Path,
        as_path.elements() == rect_path(rect),
    ensures
        cg_run(e, fill_plan(&as_rect, &brush)) == cg_run(e, fill_plan(&as_path, &brush)),
{
    match brush {
        Brush::Solid(color) => {
            lemma_fill_rect_as_path(e, rect, color);
        },
        _ => {},
    }
}

/// `stroke` paints a rectangle alike whether the shape comes as a rectangle
/// or as the path of one.
pub proof fn lemma_stroke_rect_shape(
    e: Engine,
    rect: Rect,
    as_rect: Shape,
    as_path: Shape,
    brush: Brush,
    width: Scalar,
)
    requires
        as_rect == Shape::Rect(rect),
        as_path is Path,
        as_path.elements() == rect_path(rect),
    ensures
        cg_run(e, stroke_plan(&as_rect, &brush, width)) == cg_run(
            e,
            stroke_plan(&as_path, &brush, width),
        ),
{
    match brush {
        Brush::Solid(color) => {
            lemma_run_unfold();
            let head = seq![CgOp::SetLineWidth(width)] + seq![CgOp::SetStrokeColor(color)];
            let ready = cg_step(cg_step(e, CgOp::SetLineWidth(width)), CgOp::SetStrokeColor(color));
            assert(head == seq![CgOp::SetLineWidth(width), CgOp::SetStrokeColor(color)]);
            lemma_run_two(e, CgOp::SetLineWidth(width), CgOp::SetStrokeColor(color));
            assert(cg_run(e, head) == ready);
            let fast = seq![CgOp::StrokeRect(rect)];
            let slow = set_path_plan(rect_path(rect)) + seq![CgOp::StrokePath];
            assert(stroke_plan(&as_rect, &brush, width) == head + fast);
            assert(stroke_plan(&as_path, &brush, width) == head + slow);
            lemma_run_concat(e, head, fast);
            lemma_run_concat(e, head, slow);
            lemma_run_concat(ready, set_path_plan(rect_path(rect)), seq![CgOp::StrokePath]);
            lemma_set_path(ready, rect_path(rect));
        },
        _ => {},
    }
}

/// `clip` narrows the clip alike whether the shape comes as a rectangle or
/// as the path of one.
pub proof fn lemma_clip_rect_shape(e: Engine, rect: Rect, as_rect: Shape, as_path: Shape)
    requires
        as_rect == Shape::Rect(rect),
        as_path is Path,
        as_path.elements() == rect_path(rect),
    ensures
        cg_run(e, clip_plan(&as_rect)) == cg_run(e, clip_plan(&as_path)),
{
    lemma_run_unfold();
    lemma_run_concat(e, set_path_plan(rect_path(rect)), seq![CgOp::Clip]);
    lemma_set_path(e, rect_path(rect));
}

/// Whether a plan holds neither a save nor a restore.
pub open spec fn stack_free(plan: Seq<CgOp>) -> bool {
    forall|i: int|
        0 <= i < plan.len() ==> #[trigger] plan[i] != CgOp::SaveState && plan[i]
            != CgOp::RestoreState
}

/// A plan without a save or a restore leaves the stack of graphics states
/// alone.
pub proof fn lemma_stack_free(e: Engine, plan: Seq<CgOp>)
    requires
        stack_free(plan),
    ensures
        cg_run(e, plan).saved == e.saved,
    decreases plan.len(),
{
    if plan.len() > 0 {
        let front = plan.drop_last();
        assert forall|i: int| 0 <= i < front.len() implies #[trigger] front[i] != CgOp::SaveState
            && front[i] != CgOp::RestoreState by {
            assert(front[i] == plan[i]);
        }
        lemma_stack_free(e, front);
        assert(plan.last() == plan[plan.len() - 1]);
    }
}

/// What stands between a save and a restore, and leaves the stack as it
/// found it, cannot change the graphics state for what follows: transform,
/// clip and every attribute are those from before the save.
pub proof fn lemma_bracket(e: Engine, inner: Seq<CgOp>)
    requires
        cg_run(cg_step(e, CgOp::SaveState), inner).saved == e.saved.push(e.current),
    ensures
        ({
            let done = cg_run(e, seq![CgOp::SaveState] + inner + seq![CgOp::RestoreState]);
            let within = cg_run(cg_step(e, CgOp::SaveState), inner);
            done == (Engine { current: e.current, saved: e.saved, ..within })
        }),
{
    lemma_run_unfold();
    lemma_run_concat(e, seq![CgOp::SaveState] + inner, seq![CgOp::RestoreState]);
    lemma_run_concat(e, seq![CgOp::SaveState], inner);
    assert(e.saved.push(e.current).drop_last() == e.saved);
}

/// What a gradient brush is to the engine, under the maps in force.
pub open spec fn gradient_source(brush: Brush, transform: Seq<Affine>) -> Source
    recommends
        !(brush is Solid),
{
    match brush {
        Brush::Linear(gradient) => Source::Linear(gradient, transform),
        Brush::Radial(gradient) => Source::Radial(gradient, transform),
        Brush::Solid(color) => Source::Flat(Some(color)),
    }
}

/// Filling a shape with a gradient paints the gradient once, through the
/// clip in force narrowed to the inside of the shape, and leaves the
/// graphics state and its stack as they were.
pub proof fn lemma_fill_gradient(e: Engine, shape: Shape, brush: Brush)
    requires
        !(brush is Solid),
    ensures
        cg_run(e, fill_plan(&shape, &brush)) == (Engine {
            path: Seq::empty(),
            stroked: None,
            painted: e.painted.push(
                Painted {
                    region: Region::All,
                    source: gradient_source(brush, e.current.transform),
                    clip: e.current.clip.push(
                        Region::Inside(
                            placed(shape.elements(), e.current.transform),
                            Winding::NonZero,
                        ),
                    ),
                },
            ),
            ..e
        }),
{
    lemma_run_unfold();
    let saved = cg_step(e, CgOp::SaveState);
    let paint = match brush {
        Brush::Linear(gradient) => CgOp::DrawLinearGradient(&gradient),
        Brush::Radial(gradient) => CgOp::DrawRadialGradient(&gradient),
        Brush::Solid(_) => CgOp::BeginPath,
    };
    let clip = set_path_plan(shape.elements()) + seq![CgOp::Clip];
    let inner = clip + seq![paint];
    assert(fill_plan(&shape, &brush) == seq![CgOp::SaveState] + inner + seq![
        CgOp::RestoreState,
    ]);
    lemma_run_concat(saved, clip, seq![paint]);
    lemma_run_concat(saved, set_path_plan(shape.elements()), seq![CgOp::Clip]);
    lemma_set_path(saved, shape.elements());
    lemma_bracket(e, inner);
}

/// Stroking with a solid brush paints once and leaves the stack of
/// graphics states, the transform and the clip as they were.
proof fn lemma_stroke_solid(e: Engine, shape: Shape, color: Color, width: Scalar)
    ensures
        ({
            let done = cg_run(e, stroke_plan(&shape, &Brush::Solid(color), width));
            &&& done.saved == e.saved
            &&& done.current.transform == e.current.transform
            &&& done.current.clip == e.current.clip
            &&& done.painted.len() == e.painted.len() + 1
        }),
{
    let brush = Brush::Solid(color);
    let elements = shape.elements();
    let colored = cg_step(cg_step(e, CgOp::SetLineWidth(width)), CgOp::SetStrokeColor(color));
    lemma_run_two(e, CgOp::SetLineWidth(width), CgOp::SetStrokeColor(color));
    let head = seq![CgOp::SetLineWidth(width)] + seq![CgOp::SetStrokeColor(color)];
    assert(head == seq![CgOp::SetLineWidth(width), CgOp::SetStrokeColor(color)]);
    match shape.as_rect() {
        Some(rect) => {
            assert(stroke_plan(&shape, &brush, width) == head + seq![CgOp::StrokeRect(rect)]);
            lemma_run_concat(e, head, seq![CgOp::StrokeRect(rect)]);
            lemma_run_one(colored, CgOp::StrokeRect(rect));
        },
        None => {
            let tail = set_path_plan(elements) + seq![CgOp::StrokePath];
            assert(stroke_plan(&shape, &brush, width) == head + tail);
            lemma_run_concat(e, head, tail);
            lemma_run_concat(colored, set_path_plan(elements), seq![CgOp::StrokePath]);
            lemma_set_path(colored, elements);
            lemma_run_one(cg_run(colored, set_path_plan(elements)), CgOp::StrokePath);
        },
    }
}

/// Stroking with a gradient paints the gradient once, through the clip in
/// force narrowed to the stroke of the shape, and leaves the graphics state,
/// but for the line width, and its stack as they were.
pub proof fn lemma_stroke_gradient(e: Engine, shape: Shape, brush: Brush, width: Scalar)
    requires
        !(brush is Solid),
    ensures
        ({
            let widened = cg_step(e, CgOp::SetLineWidth(width));
            cg_run(e, stroke_plan(&shape, &brush, width)) == (Engine {
                path: Seq::empty(),
                stroked: None,
                painted: e.painted.push(
                    Painted {
                        region: Region::All,
                        source: gradient_source(brush, e.current.transform),
                        clip: e.current.clip.push(
                            Region::Stroke(
                                placed(shape.elements(), e.current.transform),
                                widened.current.stroke,
                            ),
                        ),
                    },
                ),
                ..widened
            })
        }),
{
    let elements = shape.elements();
    let widened = cg_step(e, CgOp::SetLineWidth(width));
    let paint = match brush {
        Brush::Linear(gradient) => CgOp::DrawLinearGradient(&gradient),
        Brush::Radial(gradient) => CgOp::DrawRadialGradient(&gradient),
        Brush::Solid(_) => CgOp::BeginPath,
    };
    let clip = set_stroked_path_clip_plan(elements);
    let inner = clip + seq![paint];
    let bracket = seq![CgOp::SaveState] + inner + seq![CgOp::RestoreState];
    assert(stroke_plan(&shape, &brush, width) == seq![CgOp::SetLineWidth(width)] + bracket);
    lemma_run_concat(e, seq![CgOp::SetLineWidth(width)], bracket);
    lemma_run_one(e, CgOp::SetLineWidth(width));
    let saved = cg_step(widened, CgOp::SaveState);
    lemma_run_concat(saved, clip, seq![paint]);
    lemma_run_concat(
        saved,
        set_path_plan(elements),
        seq![CgOp::ReplacePathWithStrokedPath, CgOp::Clip],
    );
    lemma_set_path(saved, elements);
    let path_set = cg_run(saved, set_path_plan(elements));
    lemma_run_two(path_set, CgOp::ReplacePathWithStrokedPath, CgOp::Clip);
    lemma_run_one(cg_run(saved, clip), paint);
    lemma_bracket(widened, inner);
}

/// `stroke` paints once and leaves the stack of graphics states, the
/// transform and the clip as they were.
pub proof fn lemma_stroke_keeps_state(e: Engine, shape: Shape, brush: Brush, width: Scalar)
    ensures
        cg_run(e, stroke_plan(&shape, &brush, width)).saved == e.saved,
        cg_run(e, stroke_plan(&shape, &brush, width)).current.transform == e.current.transform,
        cg_run(e, stroke_plan(&shape, &brush, width)).current.clip == e.current.clip,
        cg_run(e, stroke_plan(&shape, &brush, width)).painted.len() == e.painted.len() + 1,
{
    match brush {
        Brush::Solid(color) => {
            lemma_stroke_solid(e, shape, color, width);
        },
        _ => {
            lemma_stroke_gradient(e, shape, brush, width);
        },
    }
}

/// `stroke_styled` leaves the whole graphics state and its stack as they
/// were: cap, join, dashes, line width and stroke colour do not outlast the
/// call.
pub proof fn lemma_stroke_styled_keeps_state(
    e: Engine,
    shape: Shape,
    brush: Brush,
    width: Scalar,
    style: StrokeStyle,
)
    ensures
        cg_run(e, stroke_styled_plan(&shape, &brush, width, &style)).current == e.current,
        cg_run(e, stroke_styled_plan(&shape, &brush, width, &style)).saved == e.saved,
        cg_run(e, stroke_styled_plan(&shape, &brush, width, &style)).painted.len()
            == e.painted.len() + 1,
{
    lemma_run_unfold();
    let saved = cg_step(e, CgOp::SaveState);
    let styling = set_stroke_style_plan(&style);
    let stroking = stroke_plan(&shape, &brush, width);
    let inner = styling + stroking;
    assert(stroke_styled_plan(&shape, &brush, width, &style) == seq![CgOp::SaveState] + inner
        + seq![CgOp::RestoreState]);
    lemma_run_concat(saved, styling, stroking);
    let styled = cg_run(saved, styling);
    assert(stack_free(styling));
    lemma_stack_free(saved, styling);
    lemma_stroke_keeps_state(styled, shape, brush, width);
    assert(styled.painted == e.painted) by {
        lemma_run_two(
            saved,
            CgOp::SetLineCap(style.cap()),
            CgOp::SetLineJoin(style.join()),
        );
        match &style.dash {
            Some(dash) => {
                lemma_run_concat(
                    saved,
                    seq![CgOp::SetLineCap(style.cap()), CgOp::SetLineJoin(style.join())],
                    seq![CgOp::SetLineDash(dash)],
                );
            },
            None => {
                assert(styling == seq![
                    CgOp::SetLineCap(style.cap()),
                    CgOp::SetLineJoin(style.join()),
                ]);
            },
        }
    }
    lemma_bracket(e, inner);
}

/// `draw_text` leaves the whole graphics state and its stack as they were.
pub proof fn lemma_draw_text_keeps_state(
    e: Engine,
    layout: CoreGraphicsTextLayout,
    pos: Point,
    brush: Brush,
)
    ensures
        cg_run(e, draw_text_plan(&layout, pos, &brush)).current == e.current,
        cg_run(e, draw_text_plan(&layout, pos, &brush)).saved == e.saved,
{
    lemma_run_unfold();
    let plan = draw_text_plan(&layout, pos, &brush);
    let inner = plan.subrange(1, plan.len() - 1);
    assert(plan == seq![CgOp::SaveState] + inner + seq![CgOp::RestoreState]);
    assert(stack_free(inner));
    lemma_stack_free(cg_step(e, CgOp::SaveState), inner);
    lemma_bracket(e, inner);
}

/// `draw_image` paints the image once, sampled as asked, into its
/// rectangle under the maps in force and the mirroring of the rectangle's
/// band, and leaves the whole graphics state and its stack as they were.
pub proof fn lemma_draw_image(e: Engine, image: Image, rect: Rect, interp: InterpolationMode)
    ensures
        cg_run(e, draw_image_plan(&image, rect, interp)) == (Engine {
            painted: e.painted.push(
                Painted {
                    region: Region::Frame(
                        rect,
                        e.current.transform.push(Affine::translate(Scalar::zero(), rect.y0)).push(
                            Affine::translate(Scalar::zero(), rect.y1),
                        ).push(Affine::flip_y()),
                    ),
                    source: Source::Pixels(image, Some(interp)),
                    clip: e.current.clip,
                },
            ),
            ..e
        }),
{
    lemma_run_unfold();
    let saved = cg_step(e, CgOp::SaveState);
    let set = cg_step(saved, CgOp::SetInterpolation(interp));
    let inner = seq![CgOp::SetInterpolation(interp)] + mirror_rect_plan(rect) + seq![
        CgOp::DrawImage(&image, rect),
    ];
    assert(draw_image_plan(&image, rect, interp) == seq![CgOp::SaveState] + inner + seq![
        CgOp::RestoreState,
    ]);
    lemma_run_concat(
        saved,
        seq![CgOp::SetInterpolation(interp)] + mirror_rect_plan(rect),
        seq![CgOp::DrawImage(&image, rect)],
    );
    lemma_run_concat(saved, seq![CgOp::SetInterpolation(interp)], mirror_rect_plan(rect));
    lemma_run_three(
        set,
        CgOp::ConcatCtm(Affine::translate(Scalar::zero(), rect.y0)),
        CgOp::ConcatCtm(Affine::translate(Scalar::zero(), rect.y1)),
        CgOp::ConcatCtm(Affine::flip_y()),
    );
    lemma_bracket(e, inner);
}

/// `clear` paints the rectangle of the surface once, in the coordinates of
/// the surface itself and under no clip, and leaves the whole graphics
/// state and its stack as they were.
pub proof fn lemma_clear(e: Engine, size: Size, color: Color)
    ensures
        cg_run(e, clear_plan(size, color)) == (Engine {
            path: Seq::empty(),
            stroked: None,
            painted: e.painted.push(
                Painted {
                    region: Region::Inside(
                        placed(rect_path(Rect::from_origin_size(size)), Seq::empty()),
                        Winding::NonZero,
                    ),
                    source: Source::Flat(Some(color)),
                    clip: Seq::empty(),
                },
            ),
            ..e
        }),
{
    let saved = cg_step(e, CgOp::SaveState);
    let inner = seq![
        CgOp::ResetClip,
        CgOp::ResetCtm,
        CgOp::SetFillColor(color),
        CgOp::FillRect(Rect::from_origin_size(size)),
    ];
    lemma_run_four(
        saved,
        CgOp::ResetClip,
        CgOp::ResetCtm,
        CgOp::SetFillColor(color),
        CgOp::FillRect(Rect::from_origin_size(size)),
    );
    lemma_bracket(e, inner);
}

/// Filling a shape with a solid brush paints once, in that colour and
/// under the clip in force, and leaves the transform, the clip and the stack
/// of graphics states as they were.
pub proof fn lemma_fill_solid(e: Engine, shape: Shape, color: Color)
    ensures
        ({
            let done = cg_run(e, fill_plan(&shape, &Brush::Solid(color)));
            &&& done.saved == e.saved
            &&& done.current == cg_step(e, CgOp::SetFillColor(color)).current
            &&& done.painted == e.painted.push(
                Painted {
                    region: Region::Inside(
                        placed(shape.elements(), e.current.transform),
                        Winding::NonZero,
                    ),
                    source: Source::Flat(Some(color)),
                    clip: e.current.clip,
                },
            )
        }),
{
    let elements = shape.elements();
    match shape {
        Shape::Rect(rect) => {
            lemma_fill_rect_as_path(e, rect, color);
        },
        Shape::Path(_) => {},
    }
    let colored = cg_step(e, CgOp::SetFillColor(color));
    lemma_run_one(e, CgOp::SetFillColor(color));
    lemma_run_concat(
        e,
        seq![CgOp::SetFillColor(color)] + set_path_plan(elements),
        seq![CgOp::FillPath],
    );
    lemma_run_concat(e, seq![CgOp::SetFillColor(color)], set_path_plan(elements));
    lemma_set_path(colored, elements);
    lemma_run_one(cg_run(colored, set_path_plan(elements)), CgOp::FillPath);
}

/// `clip` narrows the clip by the inside of the shape, under the maps in
/// force, and changes nothing else of the graphics state, nor the stack,
/// nor what was painted.
pub proof fn lemma_clip_narrows(e: Engine, shape: Shape)
    ensures
        cg_run(e, clip_plan(&shape)) == (Engine {
            current: GraphicsState {
                clip: e.current.clip.push(
                    Region::Inside(
                        placed(shape.elements(), e.current.transform),
                        Winding::NonZero,
                    ),
                ),
                ..e.current
            },
            path: Seq::empty(),
            stroked: None,
            ..e
        }),
{
    let elements = shape.elements();
    match shape {
        Shape::Rect(rect) => {
            lemma_run_one(e, CgOp::ClipToRect(rect));
        },
        Shape::Path(_) => {
            lemma_run_concat(e, set_path_plan(elements), seq![CgOp::Clip]);
            lemma_set_path(e, elements);
            lemma_run_one(cg_run(e, set_path_plan(elements)), CgOp::Clip);
        },
    }
}

/// `transform` puts its map behind the maps concatenated so far, which all
/// stay in force, and changes nothing else.
pub proof fn lemma_transform_composes(e: Engine, transform: Affine)
    ensures
        cg_run(e, seq![CgOp::ConcatCtm(transform)]) == (Engine {
            current: GraphicsState {
                transform: e.current.transform.push(transform),
                ..e.current
            },
            ..e
        }),
{
    lemma_run_one(e, CgOp::ConcatCtm(transform));
}

} // verus!
