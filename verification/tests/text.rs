use piet_native::color::Color;
use piet_native::core_graphics::text::{
    check_lines, line_range, CoreGraphicsFont, CoreGraphicsText, CoreGraphicsTextLayout,
    FontLookup, FrameGeometry, LineGeometry, FRAME_HEIGHT_BITS, UNBOUNDED_WIDTH_BITS,
};
use piet_native::error::Error;
use piet_native::geometry::{Point, Rect, Scalar, Size};
use piet_native::text::{utf16_to_byte_offset, HitTestMetrics, HitTestPoint};

const MIXED: &str = "a\u{e9}\u{20ac}\u{1f600}z";

fn s(x: f64) -> Scalar {
    Scalar::from_bits(x.to_bits())
}

fn pt(x: f64, y: f64) -> Point {
    Point::new(s(x), s(y))
}

fn font() -> CoreGraphicsFont {
    CoreGraphicsFont { name: String::from("Helvetica"), pt_size: s(14.0) }
}

fn line(location: usize, length: usize) -> LineGeometry {
    LineGeometry { location, length, origin: pt(0.0, 0.0) }
}

fn frame(width: f64, lines: Vec<LineGeometry>) -> FrameGeometry {
    FrameGeometry { suggested_size: Size { width: s(width), height: s(20.0) }, lines }
}

fn layout_of(text: &str, lines: Vec<LineGeometry>) -> CoreGraphicsTextLayout {
    CoreGraphicsTextLayout::new(String::from(text), font(), None, frame(80.0, lines)).unwrap()
}

/// The byte offset that lies `units` UTF-16 code units into the text, by
/// the standard library's own encoder.
fn expected_offset(text: &str, units: usize) -> Option<usize> {
    let mut b = 0;
    while b <= text.len() {
        if text.is_char_boundary(b) && text[..b].encode_utf16().count() == units {
            return Some(b);
        }
        b += 1;
    }
    None
}

#[test]
fn frame_constants_are_the_bits_of_their_numbers() {
    assert_eq!(UNBOUNDED_WIDTH_BITS, f64::MAX.to_bits());
    assert_eq!(FRAME_HEIGHT_BITS, 1000.0f64.to_bits());
}

#[test]
fn utf16_offsets_of_ascii_are_byte_offsets() {
    assert_eq!(utf16_to_byte_offset("hello", 0), Some(0));
    assert_eq!(utf16_to_byte_offset("hello", 3), Some(3));
    assert_eq!(utf16_to_byte_offset("hello", 5), Some(5));
    assert_eq!(utf16_to_byte_offset("hello", 6), None);
    assert_eq!(utf16_to_byte_offset("", 0), Some(0));
    assert_eq!(utf16_to_byte_offset("", 1), None);
    assert_eq!(utf16_to_byte_offset("hello", usize::MAX), None);
}

#[test]
fn utf16_offsets_count_code_units() {
    // One, two, three and four bytes; the last takes two code units.
    assert_eq!(MIXED.len(), 11);
    assert_eq!(MIXED.encode_utf16().count(), 6);
    assert_eq!(utf16_to_byte_offset(MIXED, 0), Some(0));
    assert_eq!(utf16_to_byte_offset(MIXED, 1), Some(1));
    assert_eq!(utf16_to_byte_offset(MIXED, 2), Some(3));
    assert_eq!(utf16_to_byte_offset(MIXED, 3), Some(6));
    assert_eq!(utf16_to_byte_offset(MIXED, 4), None);
    assert_eq!(utf16_to_byte_offset(MIXED, 5), Some(10));
    assert_eq!(utf16_to_byte_offset(MIXED, 6), Some(11));
    assert_eq!(utf16_to_byte_offset(MIXED, 7), None);
}

#[test]
fn utf16_offsets_agree_with_the_standard_encoder() {
    let texts = ["", "abc", MIXED, "\u{1f600}\u{1f600}", "\u{e9}\u{e9}x\u{20ac}", "\u{10000}a"];
    for text in texts {
        let mut units = 0;
        while units <= text.len() + 2 {
            assert_eq!(utf16_to_byte_offset(text, units), expected_offset(text, units));
            units += 1;
        }
    }
}

#[test]
fn line_range_turns_code_units_into_bytes() {
    assert_eq!(line_range(MIXED, &line(0, 6)), Some((0, 11)));
    assert_eq!(line_range(MIXED, &line(1, 2)), Some((1, 6)));
    assert_eq!(line_range(MIXED, &line(3, 2)), Some((6, 10)));
    assert_eq!(line_range(MIXED, &line(6, 0)), Some((11, 11)));
    assert_eq!(line_range(MIXED, &line(3, 1)), None);
    assert_eq!(line_range(MIXED, &line(4, 1)), None);
    assert_eq!(line_range(MIXED, &line(0, 7)), None);
    assert_eq!(line_range(MIXED, &line(7, 0)), None);
    assert_eq!(line_range(MIXED, &line(usize::MAX, usize::MAX)), None);
}

#[test]
fn check_lines_wants_lines_in_the_text_and_in_order() {
    assert!(check_lines("abc def", &vec![]));
    assert!(check_lines("abc def", &vec![line(0, 4), line(4, 3)]));
    assert!(check_lines("abc def", &vec![line(0, 3), line(4, 3)]));
    assert!(check_lines("abc def", &vec![line(0, 0), line(0, 7), line(7, 0)]));
    assert!(!check_lines("abc def", &vec![line(0, 5), line(4, 3)]));
    assert!(!check_lines("abc def", &vec![line(4, 3), line(0, 4)]));
    assert!(!check_lines("abc def", &vec![line(0, 8)]));
    assert!(!check_lines("a", &vec![line(usize::MAX, 0)]));
    assert!(check_lines(MIXED, &vec![line(0, 3), line(3, 3)]));
    assert!(!check_lines(MIXED, &vec![line(0, 4), line(4, 2)]));
}

#[test]
fn font_builder_keeps_name_and_size() {
    let mut text = CoreGraphicsText::new();
    let builder = text.new_font_by_name("Menlo", s(11.0));
    assert_eq!(builder.name, "Menlo");
    assert_eq!(builder.pt_size, s(11.0));
    let font = builder.build(FontLookup::Found).unwrap();
    assert_eq!(font, CoreGraphicsFont { name: String::from("Menlo"), pt_size: s(11.0) });
}

#[test]
fn font_not_found_is_a_backend_error_naming_the_font() {
    let mut text = CoreGraphicsText::new();
    let builder = text.new_font_by_name("No Such Font", s(11.0));
    assert_eq!(
        builder.build(FontLookup::NotFound),
        Err(Error::BackendError(String::from("Unable to find font \"No Such Font\"")))
    );
}

#[test]
fn layout_builder_asks_for_one_line_without_a_width() {
    let mut text = CoreGraphicsText::new();
    let f = font();
    let builder = text.new_text_layout(&f, "hello world", None);
    let request = builder.frame_request();
    assert_eq!(request.text, "hello world");
    assert_eq!(*request.font, f);
    assert_eq!(request.color, None);
    assert_eq!(request.constraint, Size { width: s(f64::MAX), height: s(1000.0) });
}

#[test]
fn layout_builder_asks_within_the_width_given() {
    let mut text = CoreGraphicsText::new();
    let f = font();
    let builder = text.new_text_layout(&f, "hello world", Some(s(120.0)));
    let request = builder.frame_request();
    assert_eq!(request.constraint, Size { width: s(120.0), height: s(1000.0) });
    let layout = builder.build(frame(118.0, vec![line(0, 11)])).unwrap();
    assert_eq!(layout.constraint(), Some(s(120.0)));
    assert_eq!(layout.width(), s(118.0));
    assert_eq!(layout.text(), "hello world");
    assert_eq!(*layout.font(), f);
    assert_eq!(*layout.frame(), frame(118.0, vec![line(0, 11)]));
}

#[test]
fn layout_refuses_a_frame_whose_lines_leave_the_text() {
    let mut text = CoreGraphicsText::new();
    let f = font();
    let builder = text.new_text_layout(&f, "a", None);
    assert!(matches!(
        builder.build(frame(5.0, vec![line(usize::MAX, 0)])),
        Err(Error::BackendError(_))
    ));
    assert!(matches!(
        CoreGraphicsTextLayout::new(String::from("abc"), font(), None, frame(5.0, vec![line(
            0, 4
        )])),
        Err(Error::BackendError(_))
    ));
    assert!(matches!(
        CoreGraphicsTextLayout::new(
            String::from("abc"),
            font(),
            None,
            frame(5.0, vec![line(0, 2), line(1, 2)])
        ),
        Err(Error::BackendError(_))
    ));
    assert!(matches!(
        CoreGraphicsTextLayout::new(String::from(MIXED), font(), None, frame(5.0, vec![line(
            0, 4
        )])),
        Err(Error::BackendError(_))
    ));
}

#[test]
fn colored_line_request_carries_the_color() {
    let layout = layout_of("abc", vec![line(0, 3)]);
    let red = Color::rgb8(255, 0, 0);
    let request = layout.build_colored_line(Some(red));
    assert_eq!(request.color, Some(red));
    assert_eq!(request.text, "abc");
    assert_eq!(request.constraint, Size { width: s(f64::MAX), height: s(1000.0) });
    assert_eq!(layout.build_colored_line(None).color, None);
}

#[test]
fn frame_rect_is_the_suggested_size_at_the_origin() {
    let r = CoreGraphicsTextLayout::frame_rect(Size { width: s(33.0), height: s(12.0) });
    assert_eq!(r, Rect::new(s(0.0), s(0.0), s(33.0), s(12.0)));
}

#[test]
fn line_count_counts_the_frame_lines() {
    assert_eq!(layout_of("", Vec::new()).line_count(), 0);
    assert_eq!(layout_of("abc", vec![line(0, 3)]).line_count(), 1);
    assert_eq!(layout_of("abc def", vec![line(0, 4), line(4, 3)]).line_count(), 2);
}

#[test]
fn line_text_slices_the_text() {
    let layout = layout_of("abc def", vec![line(0, 4), line(4, 3)]);
    assert_eq!(layout.line_text(0), Some("abc "));
    assert_eq!(layout.line_text(1), Some("def"));
    assert_eq!(layout.line_text(2), None);
    assert_eq!(layout.line_text(usize::MAX), None);
}

#[test]
fn line_text_of_an_empty_range_is_empty() {
    let layout = layout_of("abc", vec![line(0, 0), line(3, 0)]);
    assert_eq!(layout.line_text(0), Some(""));
    assert_eq!(layout.line_text(1), Some(""));
}

#[test]
fn line_text_counts_in_code_units_beyond_ascii() {
    let layout = layout_of(MIXED, vec![line(0, 2), line(2, 1), line(3, 2), line(5, 1)]);
    assert_eq!(layout.line_text(0), Some("a\u{e9}"));
    assert_eq!(layout.line_text(1), Some("\u{20ac}"));
    assert_eq!(layout.line_text(2), Some("\u{1f600}"));
    assert_eq!(layout.line_text(3), Some("z"));
    assert_eq!(layout.line_text(4), None);
}

#[test]
fn every_line_below_the_count_has_a_text_and_they_follow_in_order() {
    let layout = layout_of(MIXED, vec![line(0, 1), line(1, 2), line(3, 3)]);
    let mut joined = String::new();
    let mut i = 0;
    while i < layout.line_count() {
        let text = layout.line_text(i);
        assert!(text.is_some());
        joined.push_str(text.unwrap());
        i += 1;
    }
    assert_eq!(joined, MIXED);
    assert_eq!(layout.line_text(i), None);
}

#[test]
fn line_metric_is_unavailable() {
    let layout = layout_of("abc", vec![line(0, 3)]);
    assert_eq!(layout.line_metric(0), None);
    assert_eq!(layout.line_metric(7), None);
}

#[test]
fn update_width_replaces_width_and_frame() {
    let mut layout = layout_of("abc def", vec![line(0, 7)]);
    let narrow = frame(30.0, vec![line(0, 4), line(4, 3)]);
    assert_eq!(layout.update_width(Some(s(30.0)), Ok(narrow.clone())), Ok(()));
    assert_eq!(layout.constraint(), Some(s(30.0)));
    assert_eq!(*layout.frame(), narrow);
    assert_eq!(layout.line_count(), 2);
    assert_eq!(layout.text(), "abc def");
    assert_eq!(*layout.font(), font());
}

#[test]
fn update_width_failure_keeps_the_layout() {
    let mut layout = layout_of("abc def", vec![line(0, 7)]);
    let before = layout.clone();
    let failure = Error::BackendError(String::from("no frame"));
    assert_eq!(layout.update_width(Some(s(30.0)), Err(failure.clone())), Err(failure));
    assert_eq!(layout, before);
}

#[test]
fn update_width_refuses_a_frame_whose_lines_leave_the_text() {
    let mut layout = layout_of("abc def", vec![line(0, 7)]);
    let before = layout.clone();
    let broken = frame(30.0, vec![line(0, 4), line(4, 4)]);
    assert!(matches!(
        layout.update_width(Some(s(30.0)), Ok(broken)),
        Err(Error::BackendError(_))
    ));
    assert_eq!(layout, before);
}

#[test]
fn lifting_the_width_restores_the_unconstrained_layout() {
    let free = frame(80.0, vec![line(0, 7)]);
    let never_constrained =
        CoreGraphicsTextLayout::new(String::from("abc def"), font(), None, free.clone()).unwrap();
    let mut layout = never_constrained.clone();
    layout.update_width(Some(s(30.0)), Ok(frame(30.0, vec![line(0, 4), line(4, 3)]))).unwrap();
    assert_ne!(layout, never_constrained);
    layout.update_width(None, Ok(free.clone())).unwrap();
    assert_eq!(layout, never_constrained);
    assert_eq!(
        layout.build_colored_line(None),
        never_constrained.build_colored_line(None)
    );
    layout.update_width(None, Ok(free)).unwrap();
    assert_eq!(layout, never_constrained);
}

#[test]
fn first_origin_is_zero_without_lines() {
    assert_eq!(layout_of("", Vec::new()).first_origin_y(), s(0.0));
    let l = CoreGraphicsTextLayout::new(
        String::from("x"),
        font(),
        None,
        frame(5.0, vec![LineGeometry { location: 0, length: 1, origin: pt(1.0, 9.5) }]),
    )
    .unwrap();
    assert_eq!(l.first_origin_y(), s(9.5));
}

#[test]
fn hit_test_left_of_all_glyphs_is_outside() {
    let layout = layout_of("abc", vec![line(0, 3)]);
    let hit = layout.hit_test_point(pt(-50.0, 5.0), None);
    assert_eq!(hit, HitTestPoint { metrics: HitTestMetrics { text_position: 0 }, is_inside: false });
}

#[test]
fn hit_test_in_first_glyph_is_inside_at_offset_zero() {
    let layout = layout_of("abc", vec![line(0, 3)]);
    let hit = layout.hit_test_point(pt(1.0, 5.0), Some(0));
    assert_eq!(hit, HitTestPoint { metrics: HitTestMetrics { text_position: 0 }, is_inside: true });
}

#[test]
fn hit_test_reports_the_place_found_in_bytes() {
    let layout = layout_of(MIXED, vec![line(0, 6)]);
    let at = |units: usize| layout.hit_test_point(pt(0.0, 0.0), Some(units));
    assert_eq!(at(1).metrics.text_position, 1);
    assert_eq!(at(2).metrics.text_position, 3);
    assert_eq!(at(3).metrics.text_position, 6);
    assert_eq!(at(5).metrics.text_position, 10);
    assert_eq!(at(6).metrics.text_position, 11);
    assert!(at(3).is_inside);
}

#[test]
fn hit_test_never_leaves_the_text() {
    let layout = layout_of(MIXED, vec![line(0, 6)]);
    let mut units = 0;
    while units < 12 {
        let hit = layout.hit_test_point(pt(0.0, 0.0), Some(units));
        assert!(hit.is_inside);
        assert!(hit.metrics.text_position <= MIXED.len());
        assert!(MIXED.is_char_boundary(hit.metrics.text_position));
        units += 1;
    }
    assert_eq!(layout.hit_test_point(pt(0.0, 0.0), Some(4)).metrics.text_position, 11);
    assert_eq!(layout.hit_test_point(pt(0.0, 0.0), Some(99)).metrics.text_position, 11);
    assert_eq!(layout.hit_test_point(pt(0.0, 0.0), Some(usize::MAX)).metrics.text_position, 11);
}

#[test]
fn hit_test_text_position_is_unsupported() {
    let layout = layout_of("abc", vec![line(0, 3)]);
    assert_eq!(layout.hit_test_text_position(0), None);
    assert_eq!(layout.hit_test_text_position(99), None);
}
