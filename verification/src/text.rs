//! Answers to questions about a text layout, and the offsets into a text
//! that they speak of.
//!
//! A text position is an offset in bytes of the text's UTF-8 form. An
//! engine may count in UTF-16 code units instead; what it counts is turned
//! into bytes here.

use vstd::prelude::*;
use vstd::string::*;
use vstd::utf8::*;
use crate::error::Error;
use crate::geometry::{Point, Scalar};

verus! {

/// A position in a text, counted in bytes of its UTF-8 form.
#[derive(Clone, Copy, Debug, PartialEq, Eq, Structural)]
pub struct HitTestMetrics {
    pub text_position: usize,
}

/// What lies at a point of a layout.
#[derive(Clone, Copy, Debug, PartialEq, Eq, Structural)]
pub struct HitTestPoint {
    /// The text position nearest to the point.
    pub metrics: HitTestMetrics,
    /// Whether the point lies within the text.
    pub is_inside: bool,
}

/// Where a text position lies in a layout.
#[derive(Clone, Copy, Debug, PartialEq, Eq, Structural)]
pub struct HitTestTextPosition {
    pub point: Point,
    pub metrics: HitTestMetrics,
}

/// The measures of one line of a layout.
#[derive(Clone, Copy, Debug, PartialEq, Eq, Structural)]
pub struct LineMetric {
    pub start_offset: usize,
    pub end_offset: usize,
    pub trailing_whitespace: usize,
    pub baseline: Scalar,
    pub height: Scalar,
    pub cumulative_height: Scalar,
}

/// What an engine answered when asked for a font by name. A font that
/// only resembles the one asked for counts as found.
#[derive(Clone, Copy, Debug, PartialEq, Eq, Structural)]
pub enum FontLookup {
    Found,
    NotFound,
}

/// The message for a font that was not found: it names the font, between
/// quotation marks.
pub open spec fn font_not_found_message(name: Seq<char>) -> Seq<char> {
    "Unable to find font \""@ + name + "\""@
}

/// The error for a font that was not found: a backend error whose message
/// names the font.
pub fn font_not_found(name: &str) -> (e: Error)
    ensures
        e matches Error::BackendError(message) && message@ == font_not_found_message(
            name@,
        ),
{
    let message = String::from_str("Unable to find font \"").concat(name).concat("\"");
    Error::BackendError(message)
}

/// The UTF-16 code units that a byte of a UTF-8 text accounts for: none
/// for a continuation byte, two for the first byte of a character of four
/// bytes, one for the first byte of any other character.
pub open spec fn unit_weight(byte: u8) -> int {
    if is_continuation_byte(byte) {
        0
    } else if byte >= 0xf0 {
        2
    } else {
        1
    }
}

/// The UTF-16 code units of the first `upto` bytes of a text.
pub open spec fn utf16_units(bytes: Seq<u8>, upto: int) -> int
    decreases upto,
{
    if upto <= 0 {
        0
    } else {
        utf16_units(bytes, upto - 1) + unit_weight(bytes[upto - 1])
    }
}

/// Whether an offset lies in a text, where a character starts or the text
/// ends.
pub open spec fn is_text_offset(bytes: Seq<u8>, offset: int) -> bool {
    0 <= offset <= bytes.len() && is_char_boundary(bytes, offset)
}

/// The first offset from `from` on that lies in the text and has `units`
/// code units before it.
pub open spec fn first_offset_from(bytes: Seq<u8>, units: int, from: int) -> Option<int>
    decreases bytes.len() + 1 - from,
{
    if from > bytes.len() {
        None
    } else if is_char_boundary(bytes, from) && utf16_units(bytes, from) == units {
        Some(from)
    } else {
        first_offset_from(bytes, units, from + 1)
    }
}

/// The offset in bytes of the place that lies `units` UTF-16 code units
/// into a text. There is none where the text is shorter, or where the place
/// lies in the middle of a character.
pub open spec fn byte_offset_of(bytes: Seq<u8>, units: int) -> Option<int> {
    first_offset_from(bytes, units, 0)
}

/// What `first_offset_from` finds is an offset in the text with that many
/// code units before it, and the first such; where it finds nothing, there
/// is none.
pub proof fn lemma_first_offset_from(bytes: Seq<u8>, units: int, from: int)
    requires
        0 <= from,
    ensures
        match first_offset_from(bytes, units, from) {
            Some(b) => {
                &&& from <= b
                &&& is_text_offset(bytes, b)
                &&& utf16_units(bytes, b) == units
                &&& forall|j: int|
                    from <= j < b ==> !(is_char_boundary(bytes, j) && #[trigger] utf16_units(
                        bytes,
                        j,
                    ) == units)
            },
            None => forall|j: int|
                from <= j <= bytes.len() ==> !(is_char_boundary(bytes, j) && #[trigger] utf16_units(
                    bytes,
                    j,
                ) == units),
        },
    decreases bytes.len() + 1 - from,
{
    if from <= bytes.len() && !(is_char_boundary(bytes, from) && utf16_units(bytes, from)
        == units) {
        lemma_first_offset_from(bytes, units, from + 1);
    }
}

/// The offset in bytes of the place that lies `units` UTF-16 code units
/// into the text.
pub fn byte_offset_at(text: &str, units: u128) -> (r: Option<usize>)
    ensures
        match r {
            Some(b) => byte_offset_of(text.spec_bytes(), units as int) == Some(b as int),
            None => byte_offset_of(text.spec_bytes(), units as int) is None,
        },
{
    let bytes = text.as_bytes();
    let len: usize = bytes.len();
    let mut i: usize = 0;
    let mut count: u128 = 0;
    loop
        invariant
            i <= len,
            len == bytes@.len(),
            bytes@ == text.spec_bytes(),
            count == utf16_units(bytes@, i as int),
            count <= 2 * i,
            byte_offset_of(bytes@, units as int) == first_offset_from(
                bytes@,
                units as int,
                i as int,
            ),
        decreases len - i,
    {
        if text.is_char_boundary(i) && count == units {
            return Some(i);
        }
        if i == len {
            assert(first_offset_from(bytes@, units as int, len + 1) is None);
            return None;
        }
        let byte: u8 = bytes[i];
        let weight: u128 = if 0x80 <= byte && byte <= 0xbf {
            0
        } else if byte >= 0xf0 {
            2
        } else {
            1
        };
        count = count + weight;
        i = i + 1;
    }
}

/// The offset in bytes of the place that lies `units` UTF-16 code units
/// into the text.
pub fn utf16_to_byte_offset(text: &str, units: usize) -> (r: Option<usize>)
    ensures
        match r {
            Some(b) => byte_offset_of(text.spec_bytes(), units as int) == Some(b as int),
            None => byte_offset_of(text.spec_bytes(), units as int) is None,
        },
{
    byte_offset_at(text, units as u128)
}

} // verus!
