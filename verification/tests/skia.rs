use piet_native::color::{Channels, Color};
use piet_native::error::Error;
use piet_native::geometry::{Affine, Point, Rect, Scalar, Vec2};
use piet_native::gradient::{
    FixedGradient, FixedLinearGradient, FixedRadialGradient, GradientStop, StopPosition,
};
use piet_native::image::{ImageFormat, InterpolationMode};
use piet_native::path::{PathEl, Shape};
use piet_native::skia::context::{create_path, SkiaRenderContext};
use piet_native::skia::image::{AlphaType, Image, RasterOutcome};
use piet_native::skia::ops::{DrawStyle, FillType, Path, PathVerb, SkOp};
use piet_native::skia::paint::{
    color_to_skia_color, color_to_skia_color4f, shader_stops, Brush, Paint, Shader, ShaderStops,
    TileMode,
};
use piet_native::skia::text::{SkiaFont, SkiaText, SkiaTextLayout};
use piet_native::stroke::{Dash, LineCap, LineJoin, StrokeStyle};
use piet_native::text::{FontLookup, HitTestMetrics, HitTestPoint};

fn s(x: f64) -> Scalar {
    Scalar::from_bits(x.to_bits())
}

fn pt(x: f64, y: f64) -> Point {
    Point::new(s(x), s(y))
}

fn stop(pos: f32, color: Color) -> GradientStop {
    GradientStop { pos: StopPosition { bits: pos.to_bits() }, color }
}

fn position(pos: f32) -> StopPosition {
    StopPosition { bits: pos.to_bits() }
}

fn wedge() -> Shape {
    Shape::Path(vec![
        PathEl::MoveTo(pt(0.0, 0.0)),
        PathEl::QuadTo(pt(1.0, 1.0), pt(2.0, 0.0)),
        PathEl::CurveTo(pt(3.0, 1.0), pt(4.0, 1.0), pt(5.0, 0.0)),
        PathEl::LineTo(pt(2.0, 9.0)),
        PathEl::ClosePath,
    ])
}

fn wedge_verbs() -> Vec<PathVerb> {
    vec![
        PathVerb::MoveTo(pt(0.0, 0.0)),
        PathVerb::QuadTo(pt(1.0, 1.0), pt(2.0, 0.0)),
        PathVerb::CubicTo(pt(3.0, 1.0), pt(4.0, 1.0), pt(5.0, 0.0)),
        PathVerb::LineTo(pt(2.0, 9.0)),
        PathVerb::Close,
    ]
}

#[test]
fn skia_color_is_argb() {
    assert_eq!(color_to_skia_color(&Color::from_rgba32_u32(0x11_22_33_44)), 0x44_11_22_33);
    assert_eq!(color_to_skia_color(&Color::rgb8(255, 0, 0)), 0xff_ff_00_00);
}

#[test]
fn skia_color4f_is_rgba_numerators() {
    assert_eq!(color_to_skia_color4f(&Color::from_rgba32_u32(0x11_22_33_44)), Channels {
        r: 0x11,
        g: 0x22,
        b: 0x33,
        a: 0x44
    });
}

#[test]
fn create_path_translates_every_kind_of_element() {
    assert_eq!(create_path(&wedge()), Path { verbs: wedge_verbs(), fill_type: FillType::Winding });
}

#[test]
fn create_path_walks_a_rect_by_its_corners() {
    let r = Rect::new(s(1.0), s(2.0), s(3.0), s(4.0));
    assert_eq!(
        create_path(&Shape::Rect(r)),
        Path {
            verbs: vec![
                PathVerb::MoveTo(pt(1.0, 2.0)),
                PathVerb::LineTo(pt(3.0, 2.0)),
                PathVerb::LineTo(pt(3.0, 4.0)),
                PathVerb::LineTo(pt(1.0, 4.0)),
                PathVerb::Close,
            ],
            fill_type: FillType::Winding,
        }
    );
    assert_eq!(
        create_path(&Shape::Path(Vec::new())),
        Path { verbs: Vec::new(), fill_type: FillType::Winding }
    );
}

#[test]
fn skia_clear_uses_the_argb_word() {
    let ctx = SkiaRenderContext::new();
    assert_eq!(ctx.clear(Color::rgba8(1, 2, 3, 4)), vec![SkOp::Clear(0x04_01_02_03)]);
}

#[test]
fn skia_status_is_ok_where_nothing_was_put_off() {
    assert_eq!(SkiaRenderContext::new().status(), Ok(()));
}

#[test]
fn skia_status_reports_the_first_error_put_off_and_forgets_it() {
    let mut ctx = SkiaRenderContext::new();
    ctx.defer(Error::MissingFeature);
    ctx.defer(Error::InvalidInput);
    assert_eq!(ctx.status(), Err(Error::MissingFeature));
    assert_eq!(ctx.status(), Ok(()));
}

#[test]
fn skia_solid_brush_is_a_smooth_paint_of_the_color() {
    let ctx = SkiaRenderContext::new();
    assert_eq!(ctx.solid_brush(Color::rgba8(10, 20, 30, 40)), Brush {
        paint: Paint {
            color: Channels { r: 10, g: 20, b: 30, a: 40 },
            anti_alias: true,
            shader: None
        }
    });
}

#[test]
fn skia_linear_gradient_is_a_white_paint_with_a_shader() {
    let ctx = SkiaRenderContext::new();
    let brush = ctx
        .gradient(FixedGradient::Linear(FixedLinearGradient {
            start: pt(0.0, 0.0),
            end: pt(0.0, 100.0),
            stops: vec![stop(0.0, Color::rgb8(0, 0, 0)), stop(1.0, Color::rgb8(255, 255, 255))],
        }))
        .unwrap();
    assert_eq!(brush, Brush {
        paint: Paint {
            color: Channels { r: 255, g: 255, b: 255, a: 255 },
            anti_alias: true,
            shader: Some(Shader::Linear {
                start: pt(0.0, 0.0),
                end: pt(0.0, 100.0),
                stops: ShaderStops {
                    colors: vec![0xff_00_00_00, 0xff_ff_ff_ff],
                    positions: vec![position(0.0), position(1.0)],
                },
                tile_mode: TileMode::Clamp,
            }),
        }
    });
}

#[test]
fn skia_radial_gradient_is_a_two_circle_shader() {
    let ctx = SkiaRenderContext::new();
    let brush = ctx
        .gradient(FixedGradient::Radial(FixedRadialGradient {
            center: pt(5.0, 6.0),
            origin_offset: Vec2 { x: s(1.0), y: s(2.0) },
            radius: s(9.0),
            stops: vec![stop(0.5, Color::rgba8(1, 2, 3, 4))],
        }))
        .unwrap();
    assert_eq!(
        brush.paint.shader,
        Some(Shader::TwoPointConical {
            center: pt(5.0, 6.0),
            origin_offset: Vec2 { x: s(1.0), y: s(2.0) },
            start_radius: s(0.0),
            end_radius: s(9.0),
            stops: ShaderStops { colors: vec![0x04_01_02_03], positions: vec![position(0.5)] },
            tile_mode: TileMode::Clamp,
        })
    );
}

#[test]
fn skia_gradient_refuses_bad_stops() {
    let ctx = SkiaRenderContext::new();
    let unordered = FixedGradient::Linear(FixedLinearGradient {
        start: pt(0.0, 0.0),
        end: pt(1.0, 0.0),
        stops: vec![stop(1.0, Color::rgb8(0, 0, 0)), stop(0.0, Color::rgb8(0, 0, 0))],
    });
    assert_eq!(ctx.gradient(unordered), Err(Error::InvalidInput));
    let empty = FixedGradient::Radial(FixedRadialGradient {
        center: pt(0.0, 0.0),
        origin_offset: Vec2 { x: s(0.0), y: s(0.0) },
        radius: s(1.0),
        stops: Vec::new(),
    });
    assert_eq!(ctx.gradient(empty), Err(Error::InvalidInput));
}

#[test]
fn shader_stops_keep_the_order() {
    let out = shader_stops(&vec![
        stop(0.1, Color::from_rgba32_u32(0x01_02_03_04)),
        stop(0.9, Color::from_rgba32_u32(0x0a_0b_0c_0d)),
    ]);
    assert_eq!(out, ShaderStops {
        colors: vec![0x04_01_02_03, 0x0d_0a_0b_0c],
        positions: vec![position(0.1), position(0.9)],
    });
}

#[test]
fn skia_fill_draws_the_path_filled() {
    let ctx = SkiaRenderContext::new();
    let brush = ctx.solid_brush(Color::rgb8(1, 1, 1));
    assert_eq!(ctx.fill(&wedge(), &brush), vec![SkOp::DrawPath(
        Path { verbs: wedge_verbs(), fill_type: FillType::Winding },
        &brush,
        DrawStyle::Fill,
    )]);
}

#[test]
fn skia_fill_even_odd_sets_the_fill_type() {
    let ctx = SkiaRenderContext::new();
    let brush = ctx.solid_brush(Color::rgb8(1, 1, 1));
    assert_eq!(ctx.fill_even_odd(&wedge(), &brush), vec![SkOp::DrawPath(
        Path { verbs: wedge_verbs(), fill_type: FillType::EvenOdd },
        &brush,
        DrawStyle::Fill,
    )]);
}

#[test]
fn skia_clip_clips_to_the_path() {
    let ctx = SkiaRenderContext::new();
    assert_eq!(ctx.clip(&wedge()), vec![SkOp::ClipPath(Path {
        verbs: wedge_verbs(),
        fill_type: FillType::Winding
    })]);
}

#[test]
fn skia_stroke_draws_the_path_stroked() {
    let ctx = SkiaRenderContext::new();
    let brush = ctx.solid_brush(Color::rgb8(1, 1, 1));
    assert_eq!(ctx.stroke(&wedge(), &brush, s(2.0)), vec![SkOp::DrawPath(
        Path { verbs: wedge_verbs(), fill_type: FillType::Winding },
        &brush,
        DrawStyle::Stroke { width: s(2.0), cap: LineCap::Butt, join: LineJoin::Miter, dash: None },
    )]);
}

#[test]
fn skia_stroke_styled_carries_the_style() {
    let ctx = SkiaRenderContext::new();
    let brush = ctx.solid_brush(Color::rgb8(1, 1, 1));
    let mut style = StrokeStyle::new();
    style.set_line_cap(LineCap::Square);
    style.set_line_join(LineJoin::Round);
    style.set_dash(vec![s(1.0), s(2.0), s(3.0)], s(0.5));
    let dash = Dash { lengths: vec![s(1.0), s(2.0), s(3.0)], phase: s(0.5) };
    assert_eq!(ctx.stroke_styled(&wedge(), &brush, s(2.0), &style), vec![SkOp::DrawPath(
        Path { verbs: wedge_verbs(), fill_type: FillType::Winding },
        &brush,
        DrawStyle::Stroke {
            width: s(2.0),
            cap: LineCap::Square,
            join: LineJoin::Round,
            dash: Some(&dash)
        },
    )]);
    let plain = StrokeStyle::new();
    assert_eq!(
        ctx.stroke_styled(&wedge(), &brush, s(2.0), &plain),
        ctx.stroke(&wedge(), &brush, s(2.0))
    );
}

#[test]
fn skia_save_then_restore_returns_to_the_same_count() {
    let mut ctx = SkiaRenderContext::new();
    assert_eq!(ctx.save(), Ok(vec![SkOp::Save]));
    assert_eq!(ctx.saved(), 1);
    assert_eq!(ctx.restore(), Ok(vec![SkOp::Restore]));
    assert_eq!(ctx.saved(), 0);
    assert_eq!(ctx.restore(), Err(Error::InvalidInput));
    assert_eq!(ctx.saved(), 0);
}

#[test]
fn skia_transform_concatenates() {
    let ctx = SkiaRenderContext::new();
    let m = Affine::translate(s(3.0), s(4.0));
    assert_eq!(ctx.transform(m), vec![SkOp::Concat(m)]);
    assert_eq!(ctx.finish(), Ok(vec![SkOp::Flush]));
}

#[test]
fn skia_make_image_describes_four_byte_pixels() {
    let ctx = SkiaRenderContext::new();
    let buf = [1, 2, 3, 4, 5, 6, 7, 8];
    assert_eq!(ctx.make_image(2, 1, &buf, ImageFormat::RgbaPremul), Ok(Image {
        width: 2,
        height: 1,
        alpha_type: AlphaType::Premul,
        row_bytes: 8,
        data: vec![1, 2, 3, 4, 5, 6, 7, 8],
    }));
    assert_eq!(
        ctx.make_image(2, 1, &buf, ImageFormat::RgbaSeparate).unwrap().alpha_type,
        AlphaType::Unpremul
    );
}

#[test]
fn skia_make_image_refuses_what_it_cannot_hold() {
    let ctx = SkiaRenderContext::new();
    assert_eq!(ctx.make_image(1, 1, &[1, 2, 3], ImageFormat::Rgb), Err(Error::NotSupported));
    assert_eq!(ctx.make_image(1, 1, &[1, 2, 3, 4], ImageFormat::Other), Err(Error::NotSupported));
    assert_eq!(
        ctx.make_image(1, 1, &[1, 2, 3], ImageFormat::RgbaPremul),
        Err(Error::InvalidInput)
    );
    assert_eq!(
        ctx.make_image(0x8000_0000, 0, &[], ImageFormat::RgbaPremul),
        Err(Error::InvalidInput)
    );
    assert_eq!(
        ctx.make_image(0, 0x8000_0000, &[], ImageFormat::RgbaPremul),
        Err(Error::InvalidInput)
    );
    assert!(ctx.make_image(0x7fff_ffff, 0, &[], ImageFormat::RgbaPremul).is_ok());
}

#[test]
fn skia_image_refused_by_the_engine_is_a_missing_feature() {
    let ctx = SkiaRenderContext::new();
    let image = ctx.make_image(1, 1, &[1, 2, 3, 4], ImageFormat::RgbaPremul).unwrap();
    assert_eq!(image.clone().accept(RasterOutcome::Created), Ok(image.clone()));
    assert_eq!(image.accept(RasterOutcome::Refused), Err(Error::MissingFeature));
}

#[test]
fn skia_draw_image_fills_the_rect() {
    let ctx = SkiaRenderContext::new();
    let image = ctx.make_image(1, 1, &[1, 2, 3, 4], ImageFormat::RgbaPremul).unwrap();
    let dst = Rect::new(s(0.0), s(0.0), s(10.0), s(10.0));
    let src = Rect::new(s(0.0), s(0.0), s(1.0), s(1.0));
    assert_eq!(ctx.draw_image(&image, dst, InterpolationMode::Bilinear), vec![
        SkOp::DrawImageRect(&image, None, dst, InterpolationMode::Bilinear)
    ]);
    assert_eq!(ctx.draw_image_area(&image, src, dst, InterpolationMode::NearestNeighbor), vec![
        SkOp::DrawImageRect(&image, Some(src), dst, InterpolationMode::NearestNeighbor)
    ]);
}

fn skia_font() -> SkiaFont {
    SkiaFont { name: String::from("Menlo"), size: s(12.0) }
}

fn skia_layout(text: &str) -> SkiaTextLayout {
    SkiaTextLayout { text: String::from(text), font: skia_font(), width: s(31.5) }
}

#[test]
fn skia_font_builder_keeps_name_and_size() {
    let mut text: SkiaText = SkiaRenderContext::new().text();
    let builder = text.new_font_by_name("Menlo", s(12.0));
    assert_eq!(builder.name, "Menlo");
    assert_eq!(builder.size, s(12.0));
    assert_eq!(builder.build(FontLookup::Found), Ok(skia_font()));
}

#[test]
fn skia_font_not_found_is_a_backend_error_naming_the_font() {
    let mut text = SkiaText {};
    let builder = text.new_font_by_name("Nowhere", s(12.0));
    assert_eq!(
        builder.build(FontLookup::NotFound),
        Err(Error::BackendError(String::from("Unable to find font \"Nowhere\"")))
    );
}

#[test]
fn skia_layout_keeps_text_font_and_measured_width() {
    let mut text = SkiaText {};
    let font = skia_font();
    let builder = text.new_text_layout(&font, "hello");
    assert_eq!(builder.text, "hello");
    assert_eq!(builder.font, font);
    let layout = builder.build(s(31.5)).unwrap();
    assert_eq!(layout, skia_layout("hello"));
    assert_eq!(layout.width(), s(31.5));
}

#[test]
fn skia_hit_test_outside_is_at_the_start() {
    let layout = skia_layout("hello");
    assert_eq!(
        layout.hit_test_point(pt(-10.0, 0.0), None),
        HitTestPoint { metrics: HitTestMetrics { text_position: 0 }, is_inside: false }
    );
}

#[test]
fn skia_hit_test_inside_reports_the_place_found() {
    let layout = skia_layout("a\u{e9}z");
    assert_eq!(
        layout.hit_test_point(pt(1.0, 0.0), Some(0)),
        HitTestPoint { metrics: HitTestMetrics { text_position: 0 }, is_inside: true }
    );
    assert_eq!(layout.hit_test_point(pt(1.0, 0.0), Some(1)).metrics.text_position, 1);
    assert_eq!(layout.hit_test_point(pt(1.0, 0.0), Some(3)).metrics.text_position, 3);
    assert_eq!(layout.hit_test_point(pt(1.0, 0.0), Some(4)).metrics.text_position, 4);
    // In the middle of a character, and beyond the text: the end of the text.
    assert_eq!(layout.hit_test_point(pt(1.0, 0.0), Some(2)).metrics.text_position, 4);
    assert_eq!(layout.hit_test_point(pt(1.0, 0.0), Some(5)).metrics.text_position, 4);
    assert!(layout.hit_test_point(pt(1.0, 0.0), Some(5)).is_inside);
}

#[test]
fn skia_hit_test_text_position_is_unsupported() {
    let layout = skia_layout("hello");
    assert_eq!(layout.hit_test_text_position(0), None);
    assert_eq!(layout.hit_test_text_position(3), None);
    assert_eq!(layout.hit_test_text_position(99), None);
}

#[test]
fn skia_draw_text_draws_the_layout() {
    let ctx = SkiaRenderContext::new();
    let brush = ctx.solid_brush(Color::rgb8(0, 0, 0));
    let layout = skia_layout("hello");
    assert_eq!(ctx.draw_text(&layout, pt(3.0, 4.0), &brush), vec![SkOp::DrawText(
        &layout,
        pt(3.0, 4.0),
        &brush
    )]);
}
