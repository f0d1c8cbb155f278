//! Fonts and text layouts.
//!
//! The engine finds fonts and breaks lines. What it reports comes in here
//! as plain values; a layout keeps them and answers from them. The engine
//! counts the places of a text in UTF-16 code units; a layout takes only
//! frames whose lines lie in its text, and answers in bytes.

use vstd::prelude::*;
use vstd::string::*;
use vstd::utf8::*;
use crate::color::Color;
use crate::error::Error;
use crate::geometry::{Point, Rect, Scalar, Size};
use crate::text::{
    byte_offset_at, byte_offset_of, font_not_found, font_not_found_message, is_text_offset,
    lemma_first_offset_from, HitTestMetrics, HitTestPoint, HitTestTextPosition, LineMetric,
};

pub use crate::text::FontLookup;

verus! {

/// Bit pattern of the largest finite double: the width that an
/// unconstrained layout may take.
pub const UNBOUNDED_WIDTH_BITS: u64 = 0x7FEF_FFFF_FFFF_FFFF;

/// Bit pattern of `1000.0`: the height that a layout may take.
pub const FRAME_HEIGHT_BITS: u64 = 0x408F_4000_0000_0000;

/// The factory of fonts and layouts.
#[derive(Clone, Copy, Debug, PartialEq, Eq, Structural)]
pub struct CoreGraphicsText {}

/// A font that the engine has resolved: the name asked for, and the size.
#[derive(Clone, Debug, PartialEq, Eq)]
pub struct CoreGraphicsFont {
    pub name: String,
    pub pt_size: Scalar,
}

/// A font yet to be looked up.
#[derive(Clone, Debug, PartialEq, Eq)]
pub struct CoreGraphicsFontBuilder {
    pub name: String,
    pub pt_size: Scalar,
}

/// One line of a frame, as the engine reports it: the part of the text that
/// it shows, by the place of its start and its length, both in UTF-16 code
/// units, and where its baseline starts.
#[derive(Clone, Copy, Debug, PartialEq, Eq, Structural)]
pub struct LineGeometry {
    pub location: usize,
    pub length: usize,
    pub origin: Point,
}

/// What the engine derived from a frame request.
#[derive(Clone, Debug, PartialEq, Eq)]
pub struct FrameGeometry {
    /// The extent that the text takes under the constraint.
    pub suggested_size: Size,
    /// The lines, from the top.
    pub lines: Vec<LineGeometry>,
}

/// What the engine is asked to lay out.
#[derive(Clone, Copy, Debug, PartialEq, Eq)]
pub struct FrameRequest<'a> {
    pub text: &'a str,
    /// The font of the whole text.
    pub font: &'a CoreGraphicsFont,
    /// The foreground colour of the whole text, if one is to be set.
    pub color: Option<Color>,
    /// The largest extent that the frame may take.
    pub constraint: Size,
}

/// A text laid out. The lines of its frame lie in its text, each from one
/// character boundary to another, and follow one another without overlap.
#[derive(Debug, PartialEq, Eq)]
pub struct CoreGraphicsTextLayout {
    text: String,
    font: CoreGraphicsFont,
    width: Option<Scalar>,
    frame: FrameGeometry,
}

/// A layout as a mathematical value.
pub struct LayoutView {
    pub text: Seq<char>,
    pub font: CoreGraphicsFont,
    /// The width constraint, if there is one.
    pub width: Option<Scalar>,
    /// The extent that the text takes under the constraint.
    pub suggested_size: Size,
    /// The lines, from the top.
    pub lines: Seq<LineGeometry>,
}

/// The layout of a text in a font under a width, with a frame.
pub open spec fn layout_of(
    text: Seq<char>,
    font: CoreGraphicsFont,
    width: Option<Scalar>,
    frame: FrameGeometry,
) -> LayoutView {
    LayoutView { text, font, width, suggested_size: frame.suggested_size, lines: frame.lines@ }
}

/// A layout yet to be derived.
#[derive(Clone, Debug, PartialEq, Eq)]
pub struct CoreGraphicsTextLayoutBuilder {
    pub text: String,
    pub font: CoreGraphicsFont,
    pub width: Option<Scalar>,
}

/// The largest extent of a frame under a width constraint: the width given,
/// or with none the largest finite width, so that the text stays on one
/// line; and a fixed height.
pub open spec fn frame_constraint(width: Option<Scalar>) -> Size {
    Size {
        width: match width {
            Some(w) => w,
            None => Scalar { bits: UNBOUNDED_WIDTH_BITS },
        },
        height: Scalar { bits: FRAME_HEIGHT_BITS },
    }
}

/// Whether the bytes from `start` up to `end` of a text are a text
/// themselves: both offsets lie in the text, in order, each where a
/// character starts or the text ends.
pub open spec fn is_text_range(bytes: Seq<u8>, start: int, end: int) -> bool {
    &&& 0 <= start <= end <= bytes.len()
    &&& is_char_boundary(bytes, start)
    &&& is_char_boundary(bytes, end)
}

/// The bytes of a text that a line shows, as the offsets of the first byte
/// and of the byte behind the last. There are none where the start or the
/// end of the line is no place in the text.
pub open spec fn line_bytes(bytes: Seq<u8>, line: LineGeometry) -> Option<(int, int)> {
    match (
        byte_offset_of(bytes, line.location as int),
        byte_offset_of(bytes, line.location + line.length),
    ) {
        (Some(start), Some(end)) => if start <= end {
            Some((start, end))
        } else {
            None
        },
        _ => None,
    }
}

/// The offset of the first byte of a line.
pub open spec fn line_start(bytes: Seq<u8>, line: LineGeometry) -> int {
    match line_bytes(bytes, line) {
        Some((start, _)) => start,
        None => 0,
    }
}

/// The offset of the byte behind the last of a line.
pub open spec fn line_end(bytes: Seq<u8>, line: LineGeometry) -> int {
    match line_bytes(bytes, line) {
        Some((_, end)) => end,
        None => 0,
    }
}

/// Whether the first `n` lines lie in a text and follow one another: each
/// shows bytes of the text, and none starts before the one before it ends.
pub open spec fn lines_in_text_upto(bytes: Seq<u8>, lines: Seq<LineGeometry>, n: int) -> bool {
    &&& forall|i: int| 0 <= i < n ==> line_bytes(bytes, #[trigger] lines[i]) is Some
    &&& forall|i: int|
        0 <= i < n - 1 ==> line_end(bytes, #[trigger] lines[i]) <= line_start(bytes, lines[i + 1])
}

/// Whether all lines lie in a text and follow one another.
pub open spec fn lines_in_text(bytes: Seq<u8>, lines: Seq<LineGeometry>) -> bool {
    lines_in_text_upto(bytes, lines, lines.len() as int)
}

/// The bytes that a line shows are a text themselves.
pub proof fn lemma_line_bytes(bytes: Seq<u8>, line: LineGeometry)
    requires
        line_bytes(bytes, line) is Some,
    ensures
        is_text_range(bytes, line_start(bytes, line), line_end(bytes, line)),
{
    lemma_first_offset_from(bytes, line.location as int, 0);
    lemma_first_offset_from(bytes, line.location + line.length, 0);
}

/// A character boundary of a text is one of each prefix that ends at a
/// character boundary behind it.
pub proof fn lemma_boundary_in_prefix(bytes: Seq<u8>, start: int, end: int)
    requires
        valid_utf8(bytes),
        is_text_range(bytes, start, end),
    ensures
        valid_utf8(bytes.subrange(0, end)),
        is_char_boundary(bytes.subrange(0, end), start),
{
    let head = bytes.subrange(0, end);
    valid_utf8_split(bytes, end);
    if start == end {
        is_char_boundary_start_end_of_seq(head);
    } else {
        is_char_boundary_iff_not_is_continuation_byte(bytes, start);
        is_char_boundary_iff_not_is_continuation_byte(head, start);
    }
}

/// The bytes of a text that a line shows.
pub fn line_range(text: &str, line: &LineGeometry) -> (r: Option<(usize, usize)>)
    ensures
        match r {
            Some((start, end)) => line_bytes(text.spec_bytes(), *line) == Some(
                (start as int, end as int),
            ),
            None => line_bytes(text.spec_bytes(), *line) is None,
        },
{
    let start: usize = match byte_offset_at(text, line.location as u128) {
        Some(start) => start,
        None => {
            return None;
        },
    };
    let end_units: u128 = line.location as u128 + line.length as u128;
    let end: usize = match byte_offset_at(text, end_units) {
        Some(end) => end,
        None => {
            return None;
        },
    };
    if start <= end {
        Some((start, end))
    } else {
        None
    }
}

/// Whether all lines lie in the text and follow one another.
pub fn check_lines(text: &str, lines: &Vec<LineGeometry>) -> (ok: bool)
    ensures
        ok == lines_in_text(text.spec_bytes(), lines@),
{
    let ghost bytes = text.spec_bytes();
    let mut previous_end: usize = 0;
    let mut i: usize = 0;
    while i < lines.len()
        invariant
            i <= lines.len(),
            bytes == text.spec_bytes(),
            lines_in_text_upto(bytes, lines@, i as int),
            i > 0 ==> line_end(bytes, lines@[i - 1]) == previous_end,
        decreases lines.len() - i,
    {
        match line_range(text, &lines[i]) {
            None => {
                return false;
            },
            Some((start, end)) => {
                if i > 0 && start < previous_end {
                    assert(line_end(bytes, lines@[i - 1]) > line_start(bytes, lines@[i - 1 + 1]));
                    return false;
                }
                previous_end = end;
            },
        }
        i += 1;
    }
    true
}

/// The bytes of a text from one character boundary to another, as a text.
fn text_range<'a>(text: &'a str, start: usize, end: usize) -> (r: &'a str)
    requires
        is_text_range(text.spec_bytes(), start as int, end as int),
    ensures
        r.spec_bytes() == text.spec_bytes().subrange(start as int, end as int),
{
    proof {
        encode_utf8_valid_utf8(text@);
        lemma_boundary_in_prefix(text.spec_bytes(), start as int, end as int);
    }
    let (head, _) = text.split_at(end);
    let (_, tail) = head.split_at(start);
    assert(tail.spec_bytes() == text.spec_bytes().subrange(start as int, end as int));
    tail
}

impl CoreGraphicsText {
    pub fn new() -> (text: CoreGraphicsText) {
        CoreGraphicsText {  }
    }

    /// Starts a font of the given name and size. Nothing is looked up yet.
    pub fn new_font_by_name(&mut self, name: &str, size: Scalar) -> (builder:
        CoreGraphicsFontBuilder)
        ensures
            builder.name@ == name@,
            builder.pt_size == size,
    {
        CoreGraphicsFontBuilder { name: name.to_owned(), pt_size: size }
    }

    /// Starts a layout of `text` in `font`, as wide as `width` at most, or
    /// on one line where no width is given.
    pub fn new_text_layout(
        &mut self,
        font: &CoreGraphicsFont,
        text: &str,
        width: Option<Scalar>,
    ) -> (builder: CoreGraphicsTextLayoutBuilder)
        ensures
            builder.text@ == text@,
            builder.font == *font,
            builder.width == width,
    {
        CoreGraphicsTextLayoutBuilder {
            text: text.to_owned(),
            font: CoreGraphicsFont { name: font.name.clone(), pt_size: font.pt_size },
            width,
        }
    }
}

impl CoreGraphicsFontBuilder {
    /// Ends the building of a font with the engine's answer.
    ///
    /// A font that was found is the font of the name and size asked for. One
    /// that was not found is a backend error, whose message names the font.
    pub fn build(self, lookup: FontLookup) -> (r: Result<CoreGraphicsFont, Error>)
        ensures
            match r {
                Ok(font) => {
                    &&& lookup == FontLookup::Found
                    &&& font.name == self.name
                    &&& font.pt_size == self.pt_size
                },
                Err(e) => {
                    &&& lookup == FontLookup::NotFound
                    &&& e matches Error::BackendError(message)
                    &&& message@ == font_not_found_message(self.name@)
                },
            },
    {
        match lookup {
            FontLookup::Found => Ok(CoreGraphicsFont { name: self.name, pt_size: self.pt_size }),
            FontLookup::NotFound => Err(font_not_found(self.name.as_str())),
        }
    }
}

impl CoreGraphicsTextLayoutBuilder {
    /// What the engine is to lay out for this builder.
    pub fn frame_request(&self) -> (request: FrameRequest<'_>)
        ensures
            request.text@ == self.text@,
            *request.font == self.font,
            request.color is None,
            request.constraint == frame_constraint(self.width),
    {
        CoreGraphicsTextLayout::build_ct_line(self.text.as_str(), &self.font, self.width, None)
    }

    /// Ends the building of a layout with what the engine derived.
    ///
    /// A frame whose lines lie in the text and follow one another gives the
    /// layout of the text in the font under the width, with that frame. Any
    /// other frame is a backend error.
    pub fn build(self, frame: FrameGeometry) -> (r: Result<CoreGraphicsTextLayout, Error>)
        ensures
            match r {
                Ok(layout) => {
                    &&& lines_in_text(encode_utf8(self.text@), frame.lines@)
                    &&& layout@ == layout_of(self.text@, self.font, self.width, frame)
                },
                Err(e) => e is BackendError && !lines_in_text(
                    encode_utf8(self.text@),
                    frame.lines@,
                ),
            },
    {
        CoreGraphicsTextLayout::new(self.text, self.font, self.width, frame)
    }
}

impl Clone for CoreGraphicsTextLayout {
    fn clone(&self) -> (copy: CoreGraphicsTextLayout)
        ensures
            copy@ == self@,
    {
        proof {
            use_type_invariant(self);
        }
        let mut lines: Vec<LineGeometry> = Vec::new();
        let mut i: usize = 0;
        while i < self.frame.lines.len()
            invariant
                i <= self.frame.lines.len(),
                lines@ == self.frame.lines@.subrange(0, i as int),
            decreases self.frame.lines.len() - i,
        {
            lines.push(self.frame.lines[i]);
            i += 1;
        }
        assert(lines@ == self.frame.lines@);
        CoreGraphicsTextLayout {
            text: self.text.clone(),
            font: CoreGraphicsFont { name: self.font.name.clone(), pt_size: self.font.pt_size },
            width: self.width,
            frame: FrameGeometry { suggested_size: self.frame.suggested_size, lines },
        }
    }
}

impl View for CoreGraphicsTextLayout {
    type V = LayoutView;

    closed spec fn view(&self) -> LayoutView {
        layout_of(self.text@, self.font, self.width, self.frame)
    }
}

impl LayoutView {
    /// The layout after its width was changed to `width` and the engine
    /// derived `frame` for it.
    pub open spec fn with_width(self, width: Option<Scalar>, frame: FrameGeometry) -> LayoutView {
        layout_of(self.text, self.font, width, frame)
    }

    /// The bytes of the text.
    pub open spec fn bytes(self) -> Seq<u8> {
        encode_utf8(self.text)
    }

    /// Where the baseline of the first line starts, on the vertical axis;
    /// zero for a layout without lines.
    pub open spec fn first_origin_y(self) -> Scalar {
        if self.lines.len() > 0 {
            self.lines[0].origin.y
        } else {
            Scalar::zero()
        }
    }

    /// The text position that a hit test reports for what the engine found
    /// at a point: the start of the text where it found nothing; the place
    /// that it found, in bytes; the end of the text where the place that it
    /// found is none in the text.
    pub open spec fn hit_position(self, found: Option<usize>) -> int {
        match found {
            None => 0,
            Some(units) => match byte_offset_of(self.bytes(), units as int) {
                Some(offset) => offset,
                None => self.bytes().len() as int,
            },
        }
    }
}

impl CoreGraphicsTextLayout {
    #[verifier::type_invariant]
    spec fn lines_lie_in_text(self) -> bool {
        lines_in_text(encode_utf8(self.text@), self.frame.lines@)
    }

    /// The layout of `text` in `font` under `width`, with the frame that the
    /// engine derived for them.
    ///
    /// A frame whose lines lie in the text and follow one another gives the
    /// layout. Any other frame is a backend error.
    pub fn new(text: String, font: CoreGraphicsFont, width: Option<Scalar>, frame: FrameGeometry)
        -> (r: Result<CoreGraphicsTextLayout, Error>)
        ensures
            match r {
                Ok(layout) => {
                    &&& lines_in_text(encode_utf8(text@), frame.lines@)
                    &&& layout@ == layout_of(text@, font, width, frame)
                },
                Err(e) => e is BackendError && !lines_in_text(encode_utf8(text@), frame.lines@),
            },
    {
        if check_lines(text.as_str(), &frame.lines) {
            Ok(CoreGraphicsTextLayout { text, font, width, frame })
        } else {
            Err(Error::BackendError(String::from_str("the lines of the frame leave the text")))
        }
    }

    /// The text.
    pub fn text(&self) -> (text: &str)
        ensures
            text@ == self@.text,
    {
        self.text.as_str()
    }

    /// The font.
    pub fn font(&self) -> (font: &CoreGraphicsFont)
        ensures
            *font == self@.font,
    {
        &self.font
    }

    /// The width constraint, if there is one.
    pub fn constraint(&self) -> (width: Option<Scalar>)
        ensures
            width == self@.width,
    {
        self.width
    }

    /// The frame. Its lines lie in the text and follow one another.
    pub fn frame(&self) -> (frame: &FrameGeometry)
        ensures
            frame.suggested_size == self@.suggested_size,
            frame.lines@ == self@.lines,
            lines_in_text(self@.bytes(), self@.lines),
    {
        proof {
            use_type_invariant(self);
        }
        &self.frame
    }

    /// What the engine is to lay out: the text, all of it in the font, all
    /// of it in the colour if one is given, within the width given or else
    /// on one line.
    pub fn build_ct_line<'a>(
        text: &'a str,
        font: &'a CoreGraphicsFont,
        width: Option<Scalar>,
        color: Option<Color>,
    ) -> (request: FrameRequest<'a>)
        ensures
            request.text == text,
            request.font == font,
            request.color == color,
            request.constraint == frame_constraint(width),
    {
        let max_width = match width {
            Some(w) => w,
            None => Scalar { bits: UNBOUNDED_WIDTH_BITS },
        };
        FrameRequest {
            text,
            font,
            color,
            constraint: Size { width: max_width, height: Scalar { bits: FRAME_HEIGHT_BITS } },
        }
    }

    /// What the engine is to lay out to draw this layout in `color`.
    pub fn build_colored_line(&self, color: Option<Color>) -> (request: FrameRequest<'_>)
        ensures
            request.text@ == self@.text,
            *request.font == self@.font,
            request.color == color,
            request.constraint == frame_constraint(self@.width),
    {
        CoreGraphicsTextLayout::build_ct_line(self.text.as_str(), &self.font, self.width, color)
    }

    /// The rectangle that the engine fills with the text once it has
    /// suggested a size: that size, from the origin.
    pub fn frame_rect(suggested_size: Size) -> (rect: Rect)
        ensures
            rect == Rect::from_origin_size(suggested_size),
    {
        Rect::from_origin_size(suggested_size)
    }

    /// The width that the text takes.
    pub fn width(&self) -> (w: Scalar)
        ensures
            w == self@.suggested_size.width,
    {
        self.frame.suggested_size.width
    }

    /// Changes the width constraint.
    ///
    /// `rebuilt` is what the engine made of the request for the new width.
    /// Where it derived a frame whose lines lie in the text, the layout
    /// takes the new width and that frame. Where its frame is any other, the
    /// layout stays as it was, and that is a backend error. Where the engine
    /// failed, the layout stays as it was, and the failure is returned.
    pub fn update_width(&mut self, new_width: Option<Scalar>, rebuilt: Result<FrameGeometry, Error>)
        -> (r: Result<(), Error>)
        ensures
            match rebuilt {
                Ok(frame) => if lines_in_text(old(self)@.bytes(), frame.lines@) {
                    r is Ok && final(self)@ == old(self)@.with_width(new_width, frame)
                } else {
                    r matches Err(e) && e is BackendError && final(self)@ == old(self)@
                },
                Err(e) => r == Err::<(), Error>(e) && final(self)@ == old(self)@,
            },
    {
        match rebuilt {
            Ok(frame) => {
                if check_lines(self.text.as_str(), &frame.lines) {
                    self.frame = frame;
                    self.width = new_width;
                    Ok(())
                } else {
                    Err(
                        Error::BackendError(
                            String::from_str("the lines of the frame leave the text"),
                        ),
                    )
                }
            },
            Err(e) => Err(e),
        }
    }

    /// The number of lines.
    pub fn line_count(&self) -> (n: usize)
        ensures
            n == self@.lines.len(),
    {
        self.frame.lines.len()
    }

    /// The text of a line.
    ///
    /// Every line of the layout has one: the bytes of the text that the line
    /// shows. Beyond the last line there is none.
    pub fn line_text(&self, line_number: usize) -> (r: Option<&str>)
        ensures
            r is Some <==> line_number < self@.lines.len(),
            r matches Some(s) ==> {
                let line = self@.lines[line_number as int];
                &&& line_bytes(self@.bytes(), line) is Some
                &&& s.spec_bytes() == self@.bytes().subrange(
                    line_start(self@.bytes(), line),
                    line_end(self@.bytes(), line),
                )
            },
    {
        proof {
            use_type_invariant(self);
        }
        if line_number >= self.frame.lines.len() {
            return None;
        }
        let text: &str = self.text.as_str();
        match line_range(text, &self.frame.lines[line_number]) {
            Some((start, end)) => {
                proof {
                    lemma_line_bytes(text.spec_bytes(), self.frame.lines@[line_number as int]);
                }
                Some(text_range(text, start, end))
            },
            None => None,
        }
    }

    /// The measures of a line. This backend has none to give.
    pub fn line_metric(&self, line_number: usize) -> (r: Option<LineMetric>)
        ensures
            r is None,
    {
        None
    }

    /// Where the baseline of the first line starts, on the vertical axis;
    /// zero for a layout without lines.
    pub fn first_origin_y(&self) -> (y: Scalar)
        ensures
            y == self@.first_origin_y(),
    {
        if self.frame.lines.len() > 0 {
            self.frame.lines[0].origin.y
        } else {
            Scalar::zero()
        }
    }

    /// What lies at a point.
    ///
    /// `found` is what the engine found at the point: the place in the text
    /// nearest to it, in UTF-16 code units, where the point lies within the
    /// text, and nothing where it lies outside. The point is inside where the
    /// engine found a place. The text position is that place in bytes; it is
    /// the start of the text where the engine found nothing, and the end of
    /// the text where the place it found is none in the text. It always
    /// lies in the text, where a character starts or the text ends.
    pub fn hit_test_point(&self, point: Point, found: Option<usize>) -> (hit: HitTestPoint)
        ensures
            hit.is_inside <==> found is Some,
            hit.metrics.text_position as int == self@.hit_position(found),
            is_text_offset(self@.bytes(), hit.metrics.text_position as int),
    {
        let text: &str = self.text.as_str();
        proof {
            encode_utf8_valid_utf8(text@);
            is_char_boundary_start_end_of_seq(text.spec_bytes());
        }
        match found {
            None => HitTestPoint { metrics: HitTestMetrics { text_position: 0 }, is_inside: false },
            Some(units) => {
                let text_position: usize = match byte_offset_at(text, units as u128) {
                    Some(offset) => {
                        proof {
                            lemma_first_offset_from(text.spec_bytes(), units as int, 0);
                        }
                        offset
                    },
                    None => text.as_bytes().len(),
                };
                HitTestPoint { metrics: HitTestMetrics { text_position }, is_inside: true }
            },
        }
    }

    /// Where a text position lies. This backend does not tell, and has no
    /// answer.
    pub fn hit_test_text_position(&self, text_position: usize) -> (r: Option<HitTestTextPosition>)
        ensures
            r is None,
    {
        None
    }
}

/// Lifting a width constraint gives the layout that was never
/// constrained.
///
/// Whatever width a layout had and whatever frame it had under it: once the
/// width is lifted and the engine has derived the frame `free` for the
/// request without a width, the layout is the one built without a width
/// from that frame; and the next request is that of such a layout, so that
/// lifting the width again changes nothing.
pub proof fn lemma_width_lifted(
    layout: LayoutView,
    width: Option<Scalar>,
    narrow: FrameGeometry,
    free: FrameGeometry,
)
    ensures
        layout.with_width(width, narrow).with_width(None, free) == layout_of(
            layout.text,
            layout.font,
            None,
            free,
        ),
        layout.with_width(width, narrow).with_width(None, free) == layout.with_width(None, free),
        layout.with_width(None, free).with_width(None, free) == layout.with_width(None, free),
        frame_constraint(layout.with_width(width, narrow).with_width(None, free).width)
            == frame_constraint(None),
{
}

/// The texts of the lines of a layout lie in its text in the order of the
/// lines, none reaching into the next.
pub proof fn lemma_lines_follow(bytes: Seq<u8>, lines: Seq<LineGeometry>, i: int, j: int)
    requires
        lines_in_text(bytes, lines),
        0 <= i < j < lines.len(),
    ensures
        is_text_range(bytes, line_start(bytes, lines[i]), line_end(bytes, lines[i])),
        is_text_range(bytes, line_start(bytes, lines[j]), line_end(bytes, lines[j])),
        line_end(bytes, lines[i]) <= line_start(bytes, lines[j]),
    decreases j - i,
{
    lemma_line_bytes(bytes, lines[i]);
    lemma_line_bytes(bytes, lines[j]);
    if i + 1 < j {
        lemma_lines_follow(bytes, lines, i + 1, j);
        lemma_line_bytes(bytes, lines[i + 1]);
    }
}

} // verus!
