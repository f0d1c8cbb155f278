//! Gradient descriptions and the rules that their stops obey.

use vstd::prelude::*;
use crate::color::Color;
use crate::geometry::{Point, Scalar, Vec2};

verus! {

/// Bit pattern of the single-precision `1.0`.
pub const UNIT_ONE_BITS: u32 = 0x3F80_0000;

/// Bit pattern of the single-precision `-0.0`.
pub const UNIT_NEG_ZERO_BITS: u32 = 0x8000_0000;

/// Where along a gradient a stop lies: a single-precision number, held as
/// its bit pattern.
#[derive(Clone, Copy, Debug, PartialEq, Eq, Structural)]
pub struct StopPosition {
    pub bits: u32,
}

/// A colour fixed at a position along a gradient.
#[derive(Clone, Copy, Debug, PartialEq, Eq, Structural)]
pub struct GradientStop {
    pub pos: StopPosition,
    pub color: Color,
}

/// A linear gradient in image coordinates.
#[derive(Clone, Debug, PartialEq, Eq)]
pub struct FixedLinearGradient {
    /// The point of position zero.
    pub start: Point,
    /// The point of position one.
    pub end: Point,
    pub stops: Vec<GradientStop>,
}

/// A radial gradient in image coordinates.
#[derive(Clone, Debug, PartialEq, Eq)]
pub struct FixedRadialGradient {
    /// The centre of the circle of position one.
    pub center: Point,
    /// Where the point of position zero lies, relative to the centre.
    pub origin_offset: Vec2,
    /// The radius of the circle of position one.
    pub radius: Scalar,
    pub stops: Vec<GradientStop>,
}

/// A gradient of either kind.
#[derive(Clone, Debug, PartialEq, Eq)]
pub enum FixedGradient {
    Linear(FixedLinearGradient),
    Radial(FixedRadialGradient),
}

impl StopPosition {
    /// The rank of a position among the positions of the unit interval.
    ///
    /// The single-precision numbers from `0.0` to `1.0` have the bit patterns
    /// from `0` to `UNIT_ONE_BITS`, in the same order as the numbers; `-0.0`
    /// is the number zero under another pattern. Every other pattern, that of
    /// a negative number, of a number above one, of an infinity or of a NaN,
    /// ranks above `UNIT_ONE_BITS`.
    pub open spec fn rank(self) -> int {
        if self.bits == UNIT_NEG_ZERO_BITS {
            0
        } else {
            self.bits as int
        }
    }

    /// Whether the position lies between zero and one, both included.
    pub open spec fn in_unit_interval(self) -> bool {
        self.rank() <= UNIT_ONE_BITS
    }

    /// The rank as a machine number.
    pub fn rank_value(self) -> (r: u32)
        ensures
            r as int == self.rank(),
    {
        if self.bits == UNIT_NEG_ZERO_BITS {
            0
        } else {
            self.bits
        }
    }
}

impl FixedGradient {
    /// The stops of the gradient.
    pub open spec fn stops(&self) -> Seq<GradientStop> {
        match self {
            FixedGradient::Linear(linear) => linear.stops@,
            FixedGradient::Radial(radial) => radial.stops@,
        }
    }
}

/// No position lies before an earlier one.
pub open spec fn positions_ordered(positions: Seq<StopPosition>) -> bool {
    forall|i: int, j: int|
        0 <= i <= j < positions.len() ==> (#[trigger] positions[i]).rank() <= (
        #[trigger] positions[j]).rank()
}

/// The stop whose colour a gradient shows at a place along it, where its
/// stops settle that without mixing.
///
/// A place is given by its rank, as positions are. Both engines carry the
/// first colour on before the first stop and the last colour on behind the
/// last: at or before the first stop the gradient shows the colour of the
/// first, at or behind the last that of the last. Between two stops it
/// shows a mix of their colours, which is the engine's to compute.
pub open spec fn settled_stop(positions: Seq<StopPosition>, rank: int) -> Option<int> {
    if positions.len() == 0 {
        None
    } else if rank <= positions.first().rank() {
        Some(0)
    } else if rank >= positions.last().rank() {
        Some(positions.len() - 1)
    } else {
        None
    }
}

/// A gradient of one stop shows the colour of that stop at every place: it
/// is a solid fill.
pub proof fn lemma_single_stop_is_solid(positions: Seq<StopPosition>, rank: int)
    requires
        positions.len() == 1,
    ensures
        settled_stop(positions, rank) == Some(0int),
{
}

/// Every position lies in the unit interval.
pub open spec fn stops_in_range(stops: Seq<GradientStop>) -> bool {
    forall|i: int| 0 <= i < stops.len() ==> (#[trigger] stops[i]).pos.in_unit_interval()
}

/// No stop lies before an earlier one.
pub open spec fn stops_ordered(stops: Seq<GradientStop>) -> bool {
    forall|i: int, j: int|
        0 <= i <= j < stops.len() ==> (#[trigger] stops[i]).pos.rank() <= (
        #[trigger] stops[j]).pos.rank()
}

/// What makes a sequence of stops acceptable: there is a stop, every
/// position lies in the unit interval, and the positions never decrease.
pub open spec fn valid_stops(stops: Seq<GradientStop>) -> bool {
    &&& stops.len() > 0
    &&& stops_in_range(stops)
    &&& stops_ordered(stops)
}

/// Whether the stops are acceptable.
pub fn check_stops(stops: &Vec<GradientStop>) -> (ok: bool)
    ensures
        ok == valid_stops(stops@),
{
    if stops.len() == 0 {
        return false;
    }
    let mut previous: u32 = 0;
    let mut i: usize = 0;
    while i < stops.len()
        invariant
            i <= stops.len(),
            stops_in_range(stops@.subrange(0, i as int)),
            stops_ordered(stops@.subrange(0, i as int)),
            previous as int == if i == 0 { 0 } else { stops@[i - 1].pos.rank() },
        decreases stops.len() - i,
    {
        let rank: u32 = stops[i].pos.rank_value();
        if rank > UNIT_ONE_BITS {
            assert(!stops@[i as int].pos.in_unit_interval());
            return false;
        }
        if rank < previous {
            assert(stops@[i - 1].pos.rank() > stops@[i as int].pos.rank());
            return false;
        }
        proof {
            let before = stops@.subrange(0, i as int);
            let after = stops@.subrange(0, i as int + 1);
            assert forall|a: int, b: int| 0 <= a <= b < after.len() implies (#[trigger] after[a]).pos.rank()
                <= (#[trigger] after[b]).pos.rank() by {
                if b < i {
                    assert(before[a] == after[a]);
                    assert(before[b] == after[b]);
                } else if a < i {
                    assert(before[a] == after[a]);
                    assert(before[i - 1] == after[i - 1]);
                }
            }
            assert forall|a: int| 0 <= a < after.len() implies (#[trigger] after[a]).pos.in_unit_interval() by {
                if a < i {
                    assert(before[a] == after[a]);
                }
            }
        }
        previous = rank;
        i += 1;
    }
    assert(stops@.subrange(0, i as int) == stops@);
    true
}

} // verus!
