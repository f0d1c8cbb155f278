//! Brushes: a solid colour, or a gradient made ready for the engine.

use vstd::prelude::*;
use crate::color::Color;
use crate::geometry::{Point, Scalar, Vec2};
use crate::gradient::{
    lemma_single_stop_is_solid, settled_stop, FixedGradient, GradientStop, StopPosition,
};

verus! {

/// What the engine makes a gradient from: for each stop four colour
/// components, red, green, blue and alpha, each a numerator over
/// `CHANNEL_MAX`; and for each stop its location.
#[derive(Clone, Debug, PartialEq, Eq)]
pub struct CgGradient {
    pub components: Vec<u8>,
    pub locations: Vec<StopPosition>,
}

/// A linear gradient brush. It paints along the segment from `start` to
/// `end`, in the coordinates in force when it is drawn.
#[derive(Clone, Debug, PartialEq, Eq)]
pub struct LinearGradientBrush {
    pub gradient: CgGradient,
    pub start: Point,
    pub end: Point,
}

/// A radial gradient brush. It paints from a start circle of radius
/// `start_radius`, whose centre is `center` moved by `origin_offset`, to the
/// end circle round `center` of radius `end_radius`.
#[derive(Clone, Debug, PartialEq, Eq)]
pub struct RadialGradientBrush {
    pub gradient: CgGradient,
    pub center: Point,
    pub origin_offset: Vec2,
    pub start_radius: Scalar,
    pub end_radius: Scalar,
}

/// A paint source.
#[derive(Clone, Debug, PartialEq, Eq)]
pub enum Brush {
    Solid(Color),
    Linear(LinearGradientBrush),
    Radial(RadialGradientBrush),
}

/// The four components of one colour, in the order red, green, blue, alpha.
pub open spec fn components_of_color(c: Color) -> Seq<u8> {
    let ch = c.channels();
    seq![ch.r, ch.g, ch.b, ch.a]
}

/// The components of all stops, stop after stop.
pub open spec fn color_components(stops: Seq<GradientStop>) -> Seq<u8>
    decreases stops.len(),
{
    if stops.len() == 0 {
        Seq::empty()
    } else {
        color_components(stops.drop_last()) + components_of_color(stops.last().color)
    }
}

/// The locations of all stops, in their order.
pub open spec fn stop_locations(stops: Seq<GradientStop>) -> Seq<StopPosition> {
    Seq::new(stops.len(), |i: int| stops[i].pos)
}

/// The brush that a valid gradient becomes.
pub open spec fn brush_of(gradient: FixedGradient) -> BrushView {
    match gradient {
        FixedGradient::Linear(linear) => BrushView::Linear {
            components: color_components(linear.stops@),
            locations: stop_locations(linear.stops@),
            start: linear.start,
            end: linear.end,
        },
        FixedGradient::Radial(radial) => BrushView::Radial {
            components: color_components(radial.stops@),
            locations: stop_locations(radial.stops@),
            center: radial.center,
            origin_offset: radial.origin_offset,
            start_radius: Scalar::zero(),
            end_radius: radial.radius,
        },
    }
}

/// A brush as a mathematical value.
pub enum BrushView {
    Solid(Color),
    Linear { components: Seq<u8>, locations: Seq<StopPosition>, start: Point, end: Point },
    Radial {
        components: Seq<u8>,
        locations: Seq<StopPosition>,
        center: Point,
        origin_offset: Vec2,
        start_radius: Scalar,
        end_radius: Scalar,
    },
}

impl View for Brush {
    type V = BrushView;

    open spec fn view(&self) -> BrushView {
        match self {
            Brush::Solid(c) => BrushView::Solid(*c),
            Brush::Linear(l) => BrushView::Linear {
                components: l.gradient.components@,
                locations: l.gradient.locations@,
                start: l.start,
                end: l.end,
            },
            Brush::Radial(r) => BrushView::Radial {
                components: r.gradient.components@,
                locations: r.gradient.locations@,
                center: r.center,
                origin_offset: r.origin_offset,
                start_radius: r.start_radius,
                end_radius: r.end_radius,
            },
        }
    }
}

/// The stop locations of a brush; a solid brush has none.
pub open spec fn brush_locations(b: BrushView) -> Seq<StopPosition> {
    match b {
        BrushView::Solid(_) => Seq::empty(),
        BrushView::Linear { locations, .. } => locations,
        BrushView::Radial { locations, .. } => locations,
    }
}

/// The components of the stops lie four to a stop, and the four of stop `i`
/// are the channels of its colour.
pub proof fn lemma_color_components(stops: Seq<GradientStop>)
    ensures
        color_components(stops).len() == 4 * stops.len(),
        forall|i: int|
            0 <= i < stops.len() ==> {
                let ch = (#[trigger] stops[i]).color.channels();
                &&& color_components(stops)[4 * i] == ch.r
                &&& color_components(stops)[4 * i + 1] == ch.g
                &&& color_components(stops)[4 * i + 2] == ch.b
                &&& color_components(stops)[4 * i + 3] == ch.a
            },
    decreases stops.len(),
{
    if stops.len() > 0 {
        let front = stops.drop_last();
        lemma_color_components(front);
        assert forall|i: int| 0 <= i < stops.len() implies {
            let ch = (#[trigger] stops[i]).color.channels();
            &&& color_components(stops)[4 * i] == ch.r
            &&& color_components(stops)[4 * i + 1] == ch.g
            &&& color_components(stops)[4 * i + 2] == ch.b
            &&& color_components(stops)[4 * i + 3] == ch.a
        } by {
            if i < front.len() {
                assert(front[i] == stops[i]);
            }
        }
    }
}

/// Lays the stops out as the engine takes them: four components to a stop,
/// and the locations beside them.
pub fn gradient_stops_to_cg_gradient(stops: &Vec<GradientStop>) -> (gradient: CgGradient)
    ensures
        gradient.components@ == color_components(stops@),
        gradient.locations@ == stop_locations(stops@),
{
    let mut components: Vec<u8> = Vec::new();
    let mut locations: Vec<StopPosition> = Vec::new();
    let mut idx: usize = 0;
    while idx < stops.len()
        invariant
            idx <= stops.len(),
            components@ == color_components(stops@.subrange(0, idx as int)),
            locations@ == stop_locations(stops@.subrange(0, idx as int)),
        decreases stops.len() - idx,
    {
        let stop = stops[idx];
        let ch = stop.color.channels();
        proof {
            let next = stops@.subrange(0, idx as int + 1);
            assert(next.drop_last() == stops@.subrange(0, idx as int));
            assert(next.last() == stop);
        }
        components.push(ch.r);
        components.push(ch.g);
        components.push(ch.b);
        components.push(ch.a);
        locations.push(stop.pos);
        idx += 1;
    }
    assert(stops@.subrange(0, idx as int) == stops@);
    CgGradient { components, locations }
}

/// The brush of a gradient of one stop is a solid fill: at every place
/// along it, it shows its first four components, and they are the channels
/// of that stop's colour.
pub proof fn lemma_single_stop_brush(stops: Seq<GradientStop>, rank: int)
    requires
        stops.len() == 1,
    ensures
        settled_stop(stop_locations(stops), rank) == Some(0int),
        color_components(stops) == components_of_color(stops[0].color),
{
    lemma_single_stop_is_solid(stop_locations(stops), rank);
    assert(color_components(stops.drop_last()) == Seq::<u8>::empty());
}

} // verus!
