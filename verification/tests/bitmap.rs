use piet_native::bitmap::{BitmapTarget, Device};
use piet_native::color::Color;
use piet_native::core_graphics::image::AlphaInfo;
use piet_native::core_graphics::ops::CgOp;
use piet_native::error::Error;
use piet_native::geometry::{Affine, Rect, Scalar, Size};
use piet_native::image::ImageFormat;

fn s(x: f64) -> Scalar {
    Scalar::from_bits(x.to_bits())
}

fn target(width: usize, height: usize) -> BitmapTarget {
    let mut device = Device::new().unwrap();
    device.bitmap_target(width, height, s(1.0)).unwrap().0
}

/// Carries out a plan on a surface of opaque pixels the way an engine
/// would, for the primitives that `clear` issues.
fn paint(target: &BitmapTarget, data: &mut Vec<u8>, plan: &[CgOp]) {
    let mut fill = Color::rgba8(0, 0, 0, 0);
    let mut in_device_space = false;
    let mut unclipped = false;
    for op in plan {
        match op {
            CgOp::SaveState | CgOp::RestoreState => {},
            CgOp::ResetCtm => in_device_space = true,
            CgOp::ResetClip => unclipped = true,
            CgOp::SetFillColor(c) => fill = *c,
            CgOp::FillRect(r) => {
                assert!(in_device_space && unclipped);
                let covers = *r == Rect::new(
                    s(0.0),
                    s(0.0),
                    s(target.width as f64),
                    s(target.height as f64),
                );
                assert!(covers);
                let ch = fill.channels();
                assert_eq!(ch.a, 255);
                let mut i = 0;
                while i < data.len() {
                    data[i] = ch.r;
                    data[i + 1] = ch.g;
                    data[i + 2] = ch.b;
                    data[i + 3] = ch.a;
                    i += 4;
                }
            },
            _ => panic!("clear issues no other primitive"),
        }
    }
}

#[test]
fn bitmap_target_describes_a_premultiplied_surface() {
    let mut device = Device::new().unwrap();
    let (target, plan) = device.bitmap_target(640, 480, s(2.0)).unwrap();
    assert_eq!(
        target,
        BitmapTarget {
            width: 640,
            height: 480,
            bits_per_component: 8,
            bytes_per_row: 2560,
            alpha: AlphaInfo::PremultipliedLast,
            pix_scale: s(2.0),
        }
    );
    assert_eq!(plan, vec![CgOp::ConcatCtm(Affine::scale_non_uniform(s(2.0), s(2.0)))]);
}

#[test]
fn bitmap_target_refuses_a_surface_too_large_to_count() {
    let mut device = Device::new().unwrap();
    assert_eq!(device.bitmap_target(usize::MAX, 1, s(1.0)).err(), Some(Error::InvalidInput));
    assert_eq!(device.bitmap_target(usize::MAX / 4, 2, s(1.0)).err(), Some(Error::InvalidInput));
}

#[test]
fn render_context_of_a_target_needs_no_flip() {
    let mut t = target(4, 4);
    let size = Size { width: s(4.0), height: s(4.0) };
    let (ctx, plan) = t.render_context(size);
    assert_eq!(plan, Vec::<CgOp>::new());
    assert_eq!(ctx.size(), size);
    assert_eq!(ctx.saved(), 0);
}

#[test]
fn clear_red_then_raw_pixels_on_four_by_four() {
    let mut t = target(4, 4);
    let (ctx, setup) = t.render_context(Size { width: s(4.0), height: s(4.0) });
    assert!(setup.is_empty());
    let mut surface = vec![0u8; 64];
    let plan = ctx.clear(Color::rgb8(255, 0, 0));
    paint(&t, &mut surface, &plan);
    assert_eq!(ctx.finish(), Ok(vec![CgOp::Flush]));
    assert_eq!(t.raw_pixels_plan(ImageFormat::RgbaPremul), Ok(vec![CgOp::Flush]));
    let pixels = t.into_raw_pixels(ImageFormat::RgbaPremul, &surface).unwrap();
    assert_eq!(pixels.len(), 64);
    for pixel in pixels.chunks(4) {
        assert_eq!(pixel, [255, 0, 0, 255]);
    }
}

#[test]
fn raw_pixels_only_as_premultiplied_rgba() {
    let t = target(1, 1);
    let data = [1, 2, 3, 4];
    assert_eq!(t.into_raw_pixels(ImageFormat::Rgb, &data), Err(Error::NotSupported));
    assert_eq!(t.into_raw_pixels(ImageFormat::RgbaSeparate, &data), Err(Error::NotSupported));
    assert_eq!(t.into_raw_pixels(ImageFormat::Other, &data), Err(Error::NotSupported));
    assert_eq!(t.raw_pixels_plan(ImageFormat::Rgb), Err(Error::NotSupported));
    assert_eq!(t.raw_pixels_plan(ImageFormat::RgbaSeparate), Err(Error::NotSupported));
    assert_eq!(t.raw_pixels_plan(ImageFormat::Other), Err(Error::NotSupported));
    assert_eq!(t.into_raw_pixels(ImageFormat::RgbaPremul, &data), Ok(vec![1, 2, 3, 4]));
}

#[test]
fn raw_pixels_of_the_wrong_length_are_a_backend_error() {
    let t = target(2, 2);
    assert!(matches!(
        t.into_raw_pixels(ImageFormat::RgbaPremul, &[0; 15]),
        Err(Error::BackendError(_))
    ));
    assert!(matches!(
        t.into_raw_pixels(ImageFormat::RgbaPremul, &[0; 32]),
        Err(Error::BackendError(_))
    ));
    assert_eq!(t.into_raw_pixels(ImageFormat::RgbaPremul, &[7; 16]), Ok(vec![7; 16]));
}

#[test]
fn raw_pixels_of_an_empty_surface_are_empty() {
    let t = target(0, 5);
    assert_eq!(t.into_raw_pixels(ImageFormat::RgbaPremul, &[]), Ok(Vec::new()));
    let odd = BitmapTarget {
        width: usize::MAX,
        height: 0,
        bits_per_component: 8,
        bytes_per_row: 0,
        alpha: AlphaInfo::PremultipliedLast,
        pix_scale: s(1.0),
    };
    assert_eq!(odd.into_raw_pixels(ImageFormat::RgbaPremul, &[]), Ok(Vec::new()));
}
