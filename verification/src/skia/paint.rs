//! Paints and the brushes that hold them.

use vstd::prelude::*;
use crate::color::{Channels, Color};
use crate::geometry::{Point, Scalar, Vec2};
use crate::gradient::{lemma_single_stop_is_solid, settled_stop, GradientStop, StopPosition};

verus! {

/// How a gradient goes on beyond its two ends.
#[derive(Clone, Copy, Debug, PartialEq, Eq, Structural)]
pub enum TileMode {
    /// The colours of the two ends are carried on.
    Clamp,
}

/// The colours of a gradient, each an ARGB word, and where each lies.
#[derive(Clone, Debug, PartialEq, Eq)]
pub struct ShaderStops {
    pub colors: Vec<u32>,
    pub positions: Vec<StopPosition>,
}

/// What computes the colour of a paint from the place painted.
#[derive(Clone, Debug, PartialEq, Eq)]
pub enum Shader {
    /// A gradient along the segment from `start` to `end`.
    Linear { start: Point, end: Point, stops: ShaderStops, tile_mode: TileMode },
    /// A gradient from a start circle of radius `start_radius`, whose centre
    /// is `center` moved by `origin_offset`, to the end circle round
    /// `center` of radius `end_radius`.
    TwoPointConical {
        center: Point,
        origin_offset: Vec2,
        start_radius: Scalar,
        end_radius: Scalar,
        stops: ShaderStops,
        tile_mode: TileMode,
    },
}

/// What a path is painted with.
#[derive(Clone, Debug, PartialEq, Eq)]
pub struct Paint {
    /// The colour, each channel a numerator over `CHANNEL_MAX`.
    pub color: Channels,
    pub anti_alias: bool,
    pub shader: Option<Shader>,
}

/// A paint source.
#[derive(Clone, Debug, PartialEq, Eq)]
pub struct Brush {
    pub paint: Paint,
}

/// The ARGB words of the colours of all stops, in their order.
pub open spec fn shader_colors(stops: Seq<GradientStop>) -> Seq<u32> {
    Seq::new(stops.len(), |i: int| stops[i].color.to_argb())
}

/// The positions of all stops, in their order.
pub open spec fn shader_positions(stops: Seq<GradientStop>) -> Seq<StopPosition> {
    Seq::new(stops.len(), |i: int| stops[i].pos)
}

/// The positions of the stops of a paint; a paint without a shader has
/// none.
pub open spec fn paint_positions(paint: Paint) -> Seq<StopPosition> {
    match paint.shader {
        Some(Shader::Linear { stops, .. }) => stops.positions@,
        Some(Shader::TwoPointConical { stops, .. }) => stops.positions@,
        None => Seq::empty(),
    }
}

/// The colour as the engine's packed word: alpha in bits 31 to 24, then
/// red, green and blue.
pub fn color_to_skia_color(color: &Color) -> (argb: u32)
    ensures
        argb == color.to_argb(),
{
    color.to_argb()
}

/// The colour as four channels, each a numerator over `CHANNEL_MAX`: red
/// from bits 31 to 24 of the packed word, down to alpha from bits 7 to 0.
pub fn color_to_skia_color4f(color: &Color) -> (ch: Channels)
    ensures
        ch == color.channels(),
{
    color.channels()
}

/// Lays the stops out as the engine takes them: the colours as ARGB words,
/// and the positions beside them.
pub fn shader_stops(stops: &Vec<GradientStop>) -> (out: ShaderStops)
    ensures
        out.colors@ == shader_colors(stops@),
        out.positions@ == shader_positions(stops@),
{
    let mut colors: Vec<u32> = Vec::new();
    let mut positions: Vec<StopPosition> = Vec::new();
    let mut i: usize = 0;
    while i < stops.len()
        invariant
            i <= stops.len(),
            colors@ == shader_colors(stops@.subrange(0, i as int)),
            positions@ == shader_positions(stops@.subrange(0, i as int)),
        decreases stops.len() - i,
    {
        colors.push(color_to_skia_color(&stops[i].color));
        positions.push(stops[i].pos);
        i += 1;
    }
    assert(stops@.subrange(0, i as int) == stops@);
    ShaderStops { colors, positions }
}

/// The shader of a gradient of one stop is a solid fill: at every place
/// along it, it shows its first colour, and that is the colour of the stop.
pub proof fn lemma_single_stop_shader(stops: Seq<GradientStop>, rank: int)
    requires
        stops.len() == 1,
    ensures
        settled_stop(shader_positions(stops), rank) == Some(0int),
        shader_colors(stops) == seq![stops[0].color.to_argb()],
{
    lemma_single_stop_is_solid(shader_positions(stops), rank);
}

} // verus!
