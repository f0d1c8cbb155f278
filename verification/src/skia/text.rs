//! Fonts and text layouts.
//!
//! The engine finds fonts and measures texts. What it reports comes in
//! here as plain values; a layout keeps them and answers from them. This
//! engine counts the places of a text in bytes.

use vstd::prelude::*;
use vstd::string::*;
use vstd::utf8::*;
use crate::error::Error;
use crate::geometry::{Point, Scalar};
use crate::text::{
    font_not_found, font_not_found_message, is_text_offset, FontLookup, HitTestMetrics,
    HitTestPoint, HitTestTextPosition,
};

verus! {

/// A font that the engine has resolved: the name asked for, and the size.
#[derive(Clone, Debug, PartialEq, Eq)]
pub struct SkiaFont {
    pub name: String,
    pub size: Scalar,
}

/// A font yet to be looked up.
#[derive(Clone, Debug, PartialEq, Eq)]
pub struct SkiaFontBuilder {
    pub name: String,
    pub size: Scalar,
}

/// The factory of fonts and layouts.
#[derive(Clone, Copy, Debug, PartialEq, Eq, Structural)]
pub struct SkiaText {}

/// A text laid out on one line.
#[derive(Clone, Debug, PartialEq, Eq)]
pub struct SkiaTextLayout {
    pub text: String,
    pub font: SkiaFont,
    /// The width that the engine measured for the text in the font.
    pub width: Scalar,
}

/// A layout yet to be measured.
#[derive(Clone, Debug, PartialEq, Eq)]
pub struct SkiaTextLayoutBuilder {
    pub text: String,
    pub font: SkiaFont,
}

impl SkiaFontBuilder {
    /// Ends the building of a font with the engine's answer.
    ///
    /// A font that was found is the font of the name and size asked for. One
    /// that was not found is a backend error, whose message names the font.
    pub fn build(self, lookup: FontLookup) -> (r: Result<SkiaFont, Error>)
        ensures
            match r {
                Ok(font) => {
                    &&& lookup == FontLookup::Found
                    &&& font.name == self.name
                    &&& font.size == self.size
                },
                Err(e) => {
                    &&& lookup == FontLookup::NotFound
                    &&& e matches Error::BackendError(message)
                    &&& message@ == font_not_found_message(self.name@)
                },
            },
    {
        match lookup {
            FontLookup::Found => Ok(SkiaFont { name: self.name, size: self.size }),
            FontLookup::NotFound => Err(font_not_found(self.name.as_str())),
        }
    }
}

impl SkiaText {
    /// Starts a font of the given name and size. Nothing is looked up yet.
    pub fn new_font_by_name(&mut self, name: &str, size: Scalar) -> (builder: SkiaFontBuilder)
        ensures
            builder.name@ == name@,
            builder.size == size,
    {
        SkiaFontBuilder { name: name.to_owned(), size }
    }

    /// Starts a layout of `text` in `font`, on one line.
    pub fn new_text_layout(&mut self, font: &SkiaFont, text: &str) -> (builder:
        SkiaTextLayoutBuilder)
        ensures
            builder.text@ == text@,
            builder.font == *font,
    {
        SkiaTextLayoutBuilder {
            text: text.to_owned(),
            font: SkiaFont { name: font.name.clone(), size: font.size },
        }
    }
}

impl SkiaTextLayout {
    /// The text position that a hit test reports for what the engine found
    /// at a point: the start of the text where it found nothing; the place
    /// that it found; the end of the text where the place that it found is
    /// none in the text.
    pub open spec fn hit_position(&self, found: Option<usize>) -> int {
        match found {
            None => 0,
            Some(offset) => if is_text_offset(encode_utf8(self.text@), offset as int) {
                offset as int
            } else {
                encode_utf8(self.text@).len() as int
            },
        }
    }

    /// The width that the text takes, as the engine measured it.
    pub fn width(&self) -> (w: Scalar)
        ensures
            w == self.width,
    {
        self.width
    }

    /// What lies at a point.
    ///
    /// `found` is what the engine found at the point: the place in the text
    /// nearest to it, as an offset in bytes, where the point lies within the
    /// text, and nothing where it lies outside. The point is inside where the
    /// engine found a place. The text position is that place; it is the
    /// start of the text where the engine found nothing, and the end of the
    /// text where the place it found is none in the text. It always lies in
    /// the text, where a character starts or the text ends.
    pub fn hit_test_point(&self, point: Point, found: Option<usize>) -> (hit: HitTestPoint)
        ensures
            hit.is_inside <==> found is Some,
            hit.metrics.text_position as int == self.hit_position(found),
            is_text_offset(encode_utf8(self.text@), hit.metrics.text_position as int),
    {
        let text: &str = self.text.as_str();
        let len: usize = text.as_bytes().len();
        proof {
            encode_utf8_valid_utf8(text@);
            is_char_boundary_start_end_of_seq(text.spec_bytes());
        }
        match found {
            None => HitTestPoint { metrics: HitTestMetrics { text_position: 0 }, is_inside: false },
            Some(offset) => {
                let text_position: usize = if offset <= len && text.is_char_boundary(offset) {
                    offset
                } else {
                    len
                };
                HitTestPoint { metrics: HitTestMetrics { text_position }, is_inside: true }
            },
        }
    }

    /// Where a text position lies. This backend does not tell, and has no
    /// answer.
    pub fn hit_test_text_position(&self, text_position: usize) -> (r: Option<HitTestTextPosition>)
        ensures
            r is None,
    {
        None
    }
}

impl SkiaTextLayoutBuilder {
    /// Ends the building of a layout with the width that the engine
    /// measured for the text in the font.
    pub fn build(self, measured_width: Scalar) -> (r: Result<SkiaTextLayout, Error>)
        ensures
            r == Ok::<SkiaTextLayout, Error>(
                SkiaTextLayout { text: self.text, font: self.font, width: measured_width },
            ),
    {
        Ok(SkiaTextLayout { text: self.text, font: self.font, width: measured_width })
    }
}

} // verus!
