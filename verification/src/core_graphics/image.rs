//! Images: a raw pixel buffer with the layout that the engine reads it by.

use vstd::prelude::*;
use vstd::slice::slice_to_vec;
use crate::error::Error;
use crate::image::{buffer_len, checked_buffer_len, ImageFormat};

verus! {

/// Where a pixel keeps its alpha, if it has any.
#[derive(Clone, Copy, Debug, PartialEq, Eq, Structural)]
pub enum AlphaInfo {
    /// No alpha: every pixel is opaque.
    NoAlpha,
    /// Alpha in the last byte, the colours already scaled by it.
    PremultipliedLast,
    /// Alpha in the last byte, the colours not scaled by it.
    Last,
}

/// The bits of one colour component.
pub const BITS_PER_COMPONENT: usize = 8;

/// An image, fixed once made.
#[derive(Clone, Debug, PartialEq, Eq)]
pub struct Image {
    pub width: usize,
    pub height: usize,
    pub bits_per_component: usize,
    pub bits_per_pixel: usize,
    pub bytes_per_row: usize,
    pub alpha: AlphaInfo,
    /// Whether the engine may smooth the image when it scales it.
    pub should_interpolate: bool,
    pub data: Vec<u8>,
}

/// Where a format keeps its alpha.
pub open spec fn alpha_info_of(format: ImageFormat) -> AlphaInfo {
    match format {
        ImageFormat::RgbaPremul => AlphaInfo::PremultipliedLast,
        ImageFormat::RgbaSeparate => AlphaInfo::Last,
        _ => AlphaInfo::NoAlpha,
    }
}

/// Whether a buffer of `len` bytes holds exactly `width` by `height` pixels
/// of the format, in rows whose length fits a `usize`.
pub open spec fn image_input_ok(width: usize, height: usize, len: int, format: ImageFormat) -> bool {
    match format.bytes_per_pixel() {
        Some(bpp) => {
            &&& width as int * bpp as int <= usize::MAX
            &&& len == buffer_len(width, height, bpp)
        },
        None => false,
    }
}

impl Image {
    /// Makes an image of `width` by `height` pixels from a buffer that
    /// holds exactly those pixels in the given format.
    ///
    /// The image keeps the bytes as they are. A pixel takes eight bits for
    /// each of its components, a row takes the bytes of its pixels and no
    /// more, and alpha is read as the format says.
    pub fn new(width: usize, height: usize, buf: &[u8], format: ImageFormat) -> (image: Image)
        requires
            image_input_ok(width, height, buf@.len() as int, format),
        ensures
            image.width == width,
            image.height == height,
            image.bits_per_component == BITS_PER_COMPONENT,
            Some(image.bits_per_pixel / 8) == format.bytes_per_pixel(),
            image.bits_per_pixel % 8 == 0,
            image.bytes_per_row as int == width as int * (image.bits_per_pixel / 8) as int,
            image.alpha == alpha_info_of(format),
            image.should_interpolate,
            image.data@ == buf@,
    {
        let bytes_per_pixel: usize = match format {
            ImageFormat::Rgb => 3,
            _ => 4,
        };
        let bits_per_pixel: usize = bytes_per_pixel * 8;
        let bytes_per_row: usize = width * bytes_per_pixel;
        let alpha = match format {
            ImageFormat::Rgb => AlphaInfo::NoAlpha,
            ImageFormat::RgbaPremul => AlphaInfo::PremultipliedLast,
            _ => AlphaInfo::Last,
        };
        Image {
            width,
            height,
            bits_per_component: BITS_PER_COMPONENT,
            bits_per_pixel,
            bytes_per_row,
            alpha,
            should_interpolate: true,
            data: slice_to_vec(buf),
        }
    }

    /// Makes an image if the input allows it.
    ///
    /// A format without a layout is not supported. A buffer whose length is
    /// not that of `width` by `height` pixels of the format, or a row too
    /// long to count, is invalid input. Every other input gives the image
    /// that `new` makes.
    pub fn checked_new(width: usize, height: usize, buf: &[u8], format: ImageFormat) -> (r: Result<
        Image,
        Error,
    >)
        ensures
            match r {
                Ok(image) => {
                    &&& image_input_ok(width, height, buf@.len() as int, format)
                    &&& image.width == width
                    &&& image.height == height
                    &&& image.bits_per_component == BITS_PER_COMPONENT
                    &&& Some(image.bits_per_pixel / 8) == format.bytes_per_pixel()
                    &&& image.bits_per_pixel % 8 == 0
                    &&& image.bytes_per_row as int == width as int * (image.bits_per_pixel
                        / 8) as int
                    &&& image.alpha == alpha_info_of(format)
                    &&& image.should_interpolate
                    &&& image.data@ == buf@
                },
                Err(e) => {
                    &&& !image_input_ok(width, height, buf@.len() as int, format)
                    &&& e == if format.bytes_per_pixel() is None {
                        Error::NotSupported
                    } else {
                        Error::InvalidInput
                    }
                },
            },
    {
        let len: usize = buf.len();
        match format.bytes_per_pixel() {
            None => Err(Error::NotSupported),
            Some(bpp) => match checked_buffer_len(width, height, bpp) {
                Some((_, all)) => {
                    if all == len {
                        Ok(Image::new(width, height, buf, format))
                    } else {
                        Err(Error::InvalidInput)
                    }
                },
                None => Err(Error::InvalidInput),
            },
        }
    }
}

} // verus!
