use piet_native::core_graphics::context::CoreGraphicsRenderContext;
use piet_native::core_graphics::image::{AlphaInfo, Image, BITS_PER_COMPONENT};
use piet_native::error::Error;
use piet_native::geometry::{Scalar, Size};
use piet_native::image::{checked_buffer_len, ImageFormat};

fn context() -> CoreGraphicsRenderContext {
    let one = Scalar::from_bits(1.0f64.to_bits());
    CoreGraphicsRenderContext::new(Size { width: one, height: one }, true).0
}

#[test]
fn bytes_per_pixel_by_format() {
    assert_eq!(ImageFormat::Rgb.bytes_per_pixel(), Some(3));
    assert_eq!(ImageFormat::RgbaSeparate.bytes_per_pixel(), Some(4));
    assert_eq!(ImageFormat::RgbaPremul.bytes_per_pixel(), Some(4));
    assert_eq!(ImageFormat::Other.bytes_per_pixel(), None);
}

#[test]
fn bytes_per_pixel_agrees_with_piet() {
    assert_eq!(ImageFormat::Rgb.bytes_per_pixel(), Some(piet::ImageFormat::Rgb.bytes_per_pixel()));
    assert_eq!(
        ImageFormat::RgbaSeparate.bytes_per_pixel(),
        Some(piet::ImageFormat::RgbaSeparate.bytes_per_pixel())
    );
    assert_eq!(
        ImageFormat::RgbaPremul.bytes_per_pixel(),
        Some(piet::ImageFormat::RgbaPremul.bytes_per_pixel())
    );
}

#[test]
fn checked_buffer_len_multiplies() {
    assert_eq!(checked_buffer_len(4, 4, 4), Some((16, 64)));
    assert_eq!(checked_buffer_len(5, 3, 3), Some((15, 45)));
    assert_eq!(checked_buffer_len(0, 9, 4), Some((0, 0)));
    assert_eq!(checked_buffer_len(usize::MAX, 1, 4), None);
    assert_eq!(checked_buffer_len(usize::MAX / 4, 2, 4), None);
}

#[test]
fn rgb_image_has_three_byte_pixels_and_no_alpha() {
    let buf = [1, 2, 3, 4, 5, 6];
    let image = Image::new(2, 1, &buf, ImageFormat::Rgb);
    assert_eq!(
        image,
        Image {
            width: 2,
            height: 1,
            bits_per_component: 8,
            bits_per_pixel: 24,
            bytes_per_row: 6,
            alpha: AlphaInfo::NoAlpha,
            should_interpolate: true,
            data: vec![1, 2, 3, 4, 5, 6],
        }
    );
    assert_eq!(BITS_PER_COMPONENT, 8);
}

#[test]
fn rgba_images_read_alpha_as_the_format_says() {
    let buf = [0u8; 24];
    let premul = Image::new(3, 2, &buf, ImageFormat::RgbaPremul);
    assert_eq!(premul.alpha, AlphaInfo::PremultipliedLast);
    assert_eq!(premul.bits_per_pixel, 32);
    assert_eq!(premul.bytes_per_row, 12);
    let separate = Image::new(3, 2, &buf, ImageFormat::RgbaSeparate);
    assert_eq!(separate.alpha, AlphaInfo::Last);
    assert_eq!(separate.bits_per_pixel, 32);
    assert_eq!(separate.bytes_per_row, 12);
}

#[test]
fn make_image_refuses_a_format_without_layout() {
    let ctx = context();
    assert_eq!(ctx.make_image(1, 1, &[0, 0, 0, 0], ImageFormat::Other), Err(Error::NotSupported));
    assert_eq!(Image::checked_new(0, 0, &[], ImageFormat::Other), Err(Error::NotSupported));
}

#[test]
fn make_image_refuses_a_buffer_of_the_wrong_length() {
    let ctx = context();
    assert_eq!(ctx.make_image(2, 2, &[0; 15], ImageFormat::RgbaPremul), Err(Error::InvalidInput));
    assert_eq!(ctx.make_image(2, 2, &[0; 17], ImageFormat::RgbaPremul), Err(Error::InvalidInput));
    assert_eq!(ctx.make_image(2, 2, &[0; 16], ImageFormat::Rgb), Err(Error::InvalidInput));
    assert_eq!(
        ctx.make_image(usize::MAX, 2, &[0; 16], ImageFormat::RgbaSeparate),
        Err(Error::InvalidInput)
    );
    assert_eq!(
        ctx.make_image(usize::MAX, 0, &[], ImageFormat::RgbaSeparate),
        Err(Error::InvalidInput)
    );
}

#[test]
fn make_image_accepts_exact_buffers() {
    let ctx = context();
    assert!(ctx.make_image(2, 2, &[0; 16], ImageFormat::RgbaPremul).is_ok());
    assert!(ctx.make_image(2, 2, &[0; 12], ImageFormat::Rgb).is_ok());
    assert!(ctx.make_image(0, 0, &[], ImageFormat::Rgb).is_ok());
    let image = ctx.make_image(1, 2, &[9, 8, 7, 6, 5, 4, 3, 2], ImageFormat::RgbaSeparate).unwrap();
    assert_eq!(image.data, vec![9, 8, 7, 6, 5, 4, 3, 2]);
    assert_eq!(image.width, 1);
    assert_eq!(image.height, 2);
}
