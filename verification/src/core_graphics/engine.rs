//! What the primitives mean: a model of the engine's state, and the step
//! that each primitive makes in it.
//!
//! The model keeps what the plans of this crate depend on and what they
//! must not disturb: the graphics state with its stack, the current path,
//! and a record of everything painted.

use vstd::prelude::*;
use crate::color::Color;
use crate::core_graphics::brush::{LinearGradientBrush, RadialGradientBrush};
use crate::core_graphics::image::Image;
use crate::core_graphics::ops::{CgOp, TextDrawingMode};
use crate::core_graphics::text::CoreGraphicsTextLayout;
use crate::geometry::{Affine, Rect, Scalar};
use crate::image::InterpolationMode;
use crate::path::{rect_path, PathEl};
use crate::stroke::{Dash, LineCap, LineJoin};

verus! {

/// A path element together with the maps in force when it was appended.
pub struct PlacedEl {
    pub el: PathEl,
    pub transform: Seq<Affine>,
}

/// How the stroke of a path is shaped.
pub struct StrokeShape {
    pub width: Option<Scalar>,
    pub cap: Option<LineCap>,
    pub join: Option<LineJoin>,
    pub dash: Option<Dash>,
}

/// How a path bounds an area.
pub enum Winding {
    NonZero,
    EvenOdd,
}

/// An area of the surface.
pub enum Region {
    /// The inside of a path.
    Inside(Seq<PlacedEl>, Winding),
    /// What the stroke of a path covers.
    Stroke(Seq<PlacedEl>, StrokeShape),
    /// What the glyphs of a layout cover, drawn under the maps given.
    Glyphs(CoreGraphicsTextLayout, Seq<Affine>),
    /// A rectangle that an image fills, under the maps given.
    Frame(Rect, Seq<Affine>),
    /// Everything.
    All,
}

/// What an area is painted with.
pub enum Source {
    /// One colour; none where no colour was ever set.
    Flat(Option<Color>),
    /// A linear gradient, under the maps given.
    Linear(LinearGradientBrush, Seq<Affine>),
    /// A radial gradient, under the maps given.
    Radial(RadialGradientBrush, Seq<Affine>),
    /// The glyphs' own colour, or the colour given.
    Ink(Option<Color>),
    /// An image, sampled as said.
    Pixels(Image, Option<InterpolationMode>),
    /// The part of an image inside a rectangle, sampled as said.
    PixelsOf(Image, Rect, Option<InterpolationMode>),
}

/// One act of painting: the area, what it was painted with, and the clip
/// that held it in.
pub struct Painted {
    pub region: Region,
    pub source: Source,
    pub clip: Seq<Region>,
}

/// What `SaveState` pushes and `RestoreState` pops.
pub struct GraphicsState {
    /// The maps concatenated so far, in the order of their concatenation:
    /// a point goes through the last of them first.
    pub transform: Seq<Affine>,
    /// The areas that the clip is the intersection of.
    pub clip: Seq<Region>,
    pub fill_color: Option<Color>,
    pub stroke_color: Option<Color>,
    pub stroke: StrokeShape,
    pub text_mode: Option<TextDrawingMode>,
    pub interpolation: Option<InterpolationMode>,
}

/// The state of the engine.
pub struct Engine {
    pub current: GraphicsState,
    /// The graphics states pushed and not yet popped, the latest last.
    pub saved: Seq<GraphicsState>,
    /// The current path. It is no part of the graphics state.
    pub path: Seq<PlacedEl>,
    /// The stroke by whose outline the current path was replaced, if it
    /// was. The model gives no meaning to appending to such a path or to
    /// stroking it; no plan of this crate does either.
    pub stroked: Option<StrokeShape>,
    /// Everything painted so far, the latest last.
    pub painted: Seq<Painted>,
    /// How many of the acts of painting the engine was told to carry out.
    pub flushed: nat,
}

/// The elements under the maps in force.
pub open spec fn placed(elements: Seq<PathEl>, transform: Seq<Affine>) -> Seq<PlacedEl> {
    Seq::new(elements.len(), |i: int| PlacedEl { el: elements[i], transform })
}

impl Engine {
    /// The state with one element more on the current path.
    pub open spec fn append(self, el: PathEl) -> Engine {
        Engine {
            path: self.path.push(PlacedEl { el, transform: self.current.transform }),
            ..self
        }
    }

    /// The area that the current path bounds.
    pub open spec fn path_region(self, winding: Winding) -> Region {
        match self.stroked {
            Some(shape) => Region::Stroke(self.path, shape),
            None => Region::Inside(self.path, winding),
        }
    }

    /// The state after painting an area; the current path is used up.
    pub open spec fn paint(self, region: Region, source: Source) -> Engine {
        Engine {
            path: Seq::empty(),
            stroked: None,
            painted: self.painted.push(Painted { region, source, clip: self.current.clip }),
            ..self
        }
    }

    /// The state after painting an area that no path bounds; the current
    /// path stays.
    pub open spec fn paint_beside_path(self, region: Region, source: Source) -> Engine {
        Engine {
            painted: self.painted.push(Painted { region, source, clip: self.current.clip }),
            ..self
        }
    }

    /// The state after intersecting the clip with an area; the current path
    /// is used up.
    pub open spec fn clip_to(self, region: Region) -> Engine {
        Engine {
            current: GraphicsState { clip: self.current.clip.push(region), ..self.current },
            path: Seq::empty(),
            stroked: None,
            ..self
        }
    }

    /// The outline of a rectangle under the maps in force.
    pub open spec fn rect_outline(self, rect: Rect) -> Seq<PlacedEl> {
        placed(rect_path(rect), self.current.transform)
    }
}

/// The state after one primitive.
///
/// The three primitives that take a rectangle mean what the path primitives
/// mean for the outline of that rectangle.
pub open spec fn cg_step(e: Engine, op: CgOp) -> Engine {
    match op {
        CgOp::SaveState => Engine { saved: e.saved.push(e.current), ..e },
        CgOp::RestoreState => if e.saved.len() > 0 {
            Engine { current: e.saved.last(), saved: e.saved.drop_last(), ..e }
        } else {
            e
        },
        CgOp::ConcatCtm(m) => Engine {
            current: GraphicsState { transform: e.current.transform.push(m), ..e.current },
            ..e
        },
        CgOp::ResetCtm => Engine {
            current: GraphicsState { transform: Seq::empty(), ..e.current },
            ..e
        },
        CgOp::ResetClip => Engine {
            current: GraphicsState { clip: Seq::empty(), ..e.current },
            ..e
        },
        CgOp::SetFillColor(c) => Engine {
            current: GraphicsState { fill_color: Some(c), ..e.current },
            ..e
        },
        CgOp::SetStrokeColor(c) => Engine {
            current: GraphicsState { stroke_color: Some(c), ..e.current },
            ..e
        },
        CgOp::SetLineWidth(w) => Engine {
            current: GraphicsState {
                stroke: StrokeShape { width: Some(w), ..e.current.stroke },
                ..e.current
            },
            ..e
        },
        CgOp::SetLineCap(cap) => Engine {
            current: GraphicsState {
                stroke: StrokeShape { cap: Some(cap), ..e.current.stroke },
                ..e.current
            },
            ..e
        },
        CgOp::SetLineJoin(join) => Engine {
            current: GraphicsState {
                stroke: StrokeShape { join: Some(join), ..e.current.stroke },
                ..e.current
            },
            ..e
        },
        CgOp::SetLineDash(dash) => Engine {
            current: GraphicsState {
                stroke: StrokeShape { dash: Some(*dash), ..e.current.stroke },
                ..e.current
            },
            ..e
        },
        CgOp::FillRect(r) => e.paint(
            Region::Inside(e.rect_outline(r), Winding::NonZero),
            Source::Flat(e.current.fill_color),
        ),
        CgOp::StrokeRect(r) => e.paint(
            Region::Stroke(e.rect_outline(r), e.current.stroke),
            Source::Flat(e.current.stroke_color),
        ),
        CgOp::ClipToRect(r) => e.clip_to(Region::Inside(e.rect_outline(r), Winding::NonZero)),
        CgOp::BeginPath => Engine { path: Seq::empty(), stroked: None, ..e },
        CgOp::MoveToPoint(p) => e.append(PathEl::MoveTo(p)),
        CgOp::AddLineToPoint(p) => e.append(PathEl::LineTo(p)),
        CgOp::AddQuadCurveToPoint(c, p) => e.append(PathEl::QuadTo(c, p)),
        CgOp::AddCurveToPoint(c1, c2, p) => e.append(PathEl::CurveTo(c1, c2, p)),
        CgOp::ClosePath => e.append(PathEl::ClosePath),
        CgOp::FillPath => e.paint(
            e.path_region(Winding::NonZero),
            Source::Flat(e.current.fill_color),
        ),
        CgOp::EoFillPath => e.paint(
            e.path_region(Winding::EvenOdd),
            Source::Flat(e.current.fill_color),
        ),
        CgOp::StrokePath => e.paint(
            Region::Stroke(e.path, e.current.stroke),
            Source::Flat(e.current.stroke_color),
        ),
        CgOp::Clip => e.clip_to(e.path_region(Winding::NonZero)),
        CgOp::EoClip => e.clip_to(e.path_region(Winding::EvenOdd)),
        CgOp::ReplacePathWithStrokedPath => Engine { stroked: Some(e.current.stroke), ..e },
        CgOp::DrawLinearGradient(g) => e.paint_beside_path(
            Region::All,
            Source::Linear(*g, e.current.transform),
        ),
        CgOp::DrawRadialGradient(g) => e.paint_beside_path(
            Region::All,
            Source::Radial(*g, e.current.transform),
        ),
        CgOp::SetTextDrawingMode(mode) => Engine {
            current: GraphicsState { text_mode: Some(mode), ..e.current },
            ..e
        },
        CgOp::SetInterpolation(mode) => Engine {
            current: GraphicsState { interpolation: Some(mode), ..e.current },
            ..e
        },
        CgOp::DrawFrame(layout, color) => match e.current.text_mode {
            Some(TextDrawingMode::Clip) => Engine {
                current: GraphicsState {
                    clip: e.current.clip.push(Region::Glyphs(*layout, e.current.transform)),
                    ..e.current
                },
                ..e
            },
            _ => e.paint_beside_path(
                Region::Glyphs(*layout, e.current.transform),
                Source::Ink(color),
            ),
        },
        CgOp::DrawImage(image, r) => e.paint_beside_path(
            Region::Frame(r, e.current.transform),
            Source::Pixels(*image, e.current.interpolation),
        ),
        CgOp::DrawImageArea(image, src, dst) => e.paint_beside_path(
            Region::Frame(dst, e.current.transform),
            Source::PixelsOf(*image, src, e.current.interpolation),
        ),
        CgOp::Flush => Engine { flushed: e.painted.len(), ..e },
    }
}

/// The state after a plan.
pub open spec fn cg_run(e: Engine, plan: Seq<CgOp>) -> Engine
    decreases plan.len(),
{
    if plan.len() == 0 {
        e
    } else {
        cg_step(cg_run(e, plan.drop_last()), plan.last())
    }
}

/// A plan with one primitive more makes one step more; the empty plan
/// makes none.
pub proof fn lemma_run_unfold()
    ensures
        forall|e: Engine| #[trigger] cg_run(e, Seq::empty()) == e,
        forall|e: Engine, plan: Seq<CgOp>, op: CgOp| #[trigger]
            cg_run(e, plan.push(op)) == cg_step(cg_run(e, plan), op),
{
    assert forall|e: Engine, plan: Seq<CgOp>, op: CgOp| #[trigger]
        cg_run(e, plan.push(op)) == cg_step(cg_run(e, plan), op) by {
        assert(plan.push(op).drop_last() == plan);
    }
}

/// Running two plans one after the other is running them joined.
pub proof fn lemma_run_concat(e: Engine, first: Seq<CgOp>, second: Seq<CgOp>)
    ensures
        cg_run(e, first + second) == cg_run(cg_run(e, first), second),
    decreases second.len(),
{
    if second.len() == 0 {
        assert(first + second == first);
    } else {
        lemma_run_concat(e, first, second.drop_last());
        assert((first + second).drop_last() == first + second.drop_last());
    }
}

/// A plan of one primitive makes its step.
pub proof fn lemma_run_one(e: Engine, a: CgOp)
    ensures
        cg_run(e, seq![a]) == cg_step(e, a),
{
    lemma_run_unfold();
}

/// A plan of two primitives makes their two steps.
pub proof fn lemma_run_two(e: Engine, a: CgOp, b: CgOp)
    ensures
        cg_run(e, seq![a, b]) == cg_step(cg_step(e, a), b),
{
    lemma_run_unfold();
    assert(seq![a, b] == Seq::empty().push(a).push(b));
}

/// A plan of four primitives makes their four steps.
pub proof fn lemma_run_four(e: Engine, a: CgOp, b: CgOp, c: CgOp, d: CgOp)
    ensures
        cg_run(e, seq![a, b, c, d]) == cg_step(cg_step(cg_step(cg_step(e, a), b), c), d),
{
    lemma_run_unfold();
    assert(seq![a, b, c, d] == Seq::empty().push(a).push(b).push(c).push(d));
}

/// A plan of three primitives makes their three steps.
pub proof fn lemma_run_three(e: Engine, a: CgOp, b: CgOp, c: CgOp)
    ensures
        cg_run(e, seq![a, b, c]) == cg_step(cg_step(cg_step(e, a), b), c),
{
    lemma_run_unfold();
    assert(seq![a, b, c] == Seq::empty().push(a).push(b).push(c));
}

} // verus!
