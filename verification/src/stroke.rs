//! How a stroke is capped, joined and dashed.

use vstd::prelude::*;
use crate::geometry::Scalar;

verus! {

/// The shape of the two ends of a stroked line.
#[derive(Clone, Copy, Debug, PartialEq, Eq, Structural)]
pub enum LineCap {
    Butt,
    Round,
    Square,
}

/// The shape of the corner where two stroked segments meet.
#[derive(Clone, Copy, Debug, PartialEq, Eq, Structural)]
pub enum LineJoin {
    Miter,
    Round,
    Bevel,
}

/// A dash pattern: the lengths drawn and skipped in turn, and how far into
/// the pattern the stroke starts.
#[derive(Clone, Debug, PartialEq, Eq)]
pub struct Dash {
    pub lengths: Vec<Scalar>,
    pub phase: Scalar,
}

/// The style of a stroke. A field left empty stands for its default: a butt
/// cap, a miter join, no dashes.
#[derive(Clone, Debug, PartialEq, Eq)]
pub struct StrokeStyle {
    pub line_join: Option<LineJoin>,
    pub line_cap: Option<LineCap>,
    pub dash: Option<Dash>,
}

impl StrokeStyle {
    /// The cap to stroke with.
    pub open spec fn cap_spec(&self) -> LineCap {
        match self.line_cap {
            Some(cap) => cap,
            None => LineCap::Butt,
        }
    }

    /// The join to stroke with.
    pub open spec fn join_spec(&self) -> LineJoin {
        match self.line_join {
            Some(join) => join,
            None => LineJoin::Miter,
        }
    }

    /// The style with every field left to its default.
    pub fn new() -> (style: StrokeStyle)
        ensures
            style.line_join is None,
            style.line_cap is None,
            style.dash is None,
    {
        StrokeStyle { line_join: None, line_cap: None, dash: None }
    }

    pub fn set_line_join(&mut self, line_join: LineJoin)
        ensures
            final(self).line_join == Some(line_join),
            final(self).line_cap == old(self).line_cap,
            final(self).dash == old(self).dash,
    {
        self.line_join = Some(line_join);
    }

    pub fn set_line_cap(&mut self, line_cap: LineCap)
        ensures
            final(self).line_cap == Some(line_cap),
            final(self).line_join == old(self).line_join,
            final(self).dash == old(self).dash,
    {
        self.line_cap = Some(line_cap);
    }

    pub fn set_dash(&mut self, lengths: Vec<Scalar>, phase: Scalar)
        ensures
            final(self).dash == Some(Dash { lengths, phase }),
            final(self).line_join == old(self).line_join,
            final(self).line_cap == old(self).line_cap,
    {
        self.dash = Some(Dash { lengths, phase });
    }

    /// The cap to stroke with: the one set, or a butt cap.
    #[verifier::when_used_as_spec(cap_spec)]
    pub fn cap(&self) -> (cap: LineCap)
        ensures
            cap == self.cap_spec(),
    {
        match self.line_cap {
            Some(cap) => cap,
            None => LineCap::Butt,
        }
    }

    /// The join to stroke with: the one set, or a miter join.
    #[verifier::when_used_as_spec(join_spec)]
    pub fn join(&self) -> (join: LineJoin)
        ensures
            join == self.join_spec(),
    {
        match self.line_join {
            Some(join) => join,
            None => LineJoin::Miter,
        }
    }
}

} // verus!
