//! Images for this backend: four bytes to a pixel, red first.

use vstd::prelude::*;
use vstd::slice::slice_to_vec;
use crate::error::Error;
use crate::image::{buffer_len, checked_buffer_len, ImageFormat};

verus! {

/// Whether the colours of a pixel are already scaled by its alpha.
#[derive(Clone, Copy, Debug, PartialEq, Eq, Structural)]
pub enum AlphaType {
    Premul,
    Unpremul,
}

/// The bytes that one pixel takes.
pub const BYTES_PER_PIXEL: usize = 4;

/// An image, fixed once made: `height` rows of `width` pixels, each pixel
/// red, green, blue, alpha, in the sRGB colour space.
#[derive(Clone, Debug, PartialEq, Eq)]
pub struct Image {
    pub width: i32,
    pub height: i32,
    pub alpha_type: AlphaType,
    pub row_bytes: usize,
    pub data: Vec<u8>,
}

/// What the engine answered when asked to make an image.
#[derive(Clone, Copy, Debug, PartialEq, Eq, Structural)]
pub enum RasterOutcome {
    Created,
    Refused,
}

/// How a format with four bytes to a pixel keeps its alpha.
pub open spec fn alpha_type_of(format: ImageFormat) -> Option<AlphaType> {
    match format {
        ImageFormat::RgbaPremul => Some(AlphaType::Premul),
        ImageFormat::RgbaSeparate => Some(AlphaType::Unpremul),
        _ => None,
    }
}

/// Whether a buffer of `len` bytes holds exactly `width` by `height` pixels
/// of four bytes, with both measures within what the engine can count and
/// rows whose length fits a `usize`.
pub open spec fn raster_input_ok(width: usize, height: usize, len: int) -> bool {
    &&& width <= i32::MAX
    &&& height <= i32::MAX
    &&& width as int * BYTES_PER_PIXEL as int <= usize::MAX
    &&& len == buffer_len(width, height, BYTES_PER_PIXEL)
}

impl Image {
    /// Describes the image of a raw pixel buffer.
    ///
    /// A format that does not take four bytes to a pixel is not supported.
    /// A width or height beyond what the engine counts, a row too long to
    /// count, or a buffer whose length is not that of `width` by `height`
    /// pixels, is invalid input.
    /// Every other input gives the image of those pixels, byte for byte.
    pub fn describe(width: usize, height: usize, buf: &[u8], format: ImageFormat) -> (r: Result<
        Image,
        Error,
    >)
        ensures
            match r {
                Ok(image) => {
                    &&& raster_input_ok(width, height, buf@.len() as int)
                    &&& image.width == width
                    &&& image.height == height
                    &&& Some(image.alpha_type) == alpha_type_of(format)
                    &&& image.row_bytes as int == width as int * BYTES_PER_PIXEL as int
                    &&& image.data@ == buf@
                },
                Err(e) => if alpha_type_of(format) is None {
                    e == Error::NotSupported
                } else {
                    e == Error::InvalidInput && !raster_input_ok(
                        width,
                        height,
                        buf@.len() as int,
                    )
                },
            },
    {
        let alpha_type = match format {
            ImageFormat::RgbaPremul => AlphaType::Premul,
            ImageFormat::RgbaSeparate => AlphaType::Unpremul,
            _ => {
                return Err(Error::NotSupported);
            },
        };
        if width > 0x7fff_ffff || height > 0x7fff_ffff {
            return Err(Error::InvalidInput);
        }
        let len: usize = buf.len();
        match checked_buffer_len(width, height, BYTES_PER_PIXEL) {
            Some((row_bytes, all)) => {
                if all != len {
                    return Err(Error::InvalidInput);
                }
                Ok(
                    Image {
                        width: width as i32,
                        height: height as i32,
                        alpha_type,
                        row_bytes,
                        data: slice_to_vec(buf),
                    },
                )
            },
            None => Err(Error::InvalidInput),
        }
    }

    /// What becomes of a described image once the engine has answered: the
    /// image where the engine made it, a missing feature where it refused.
    pub fn accept(self, outcome: RasterOutcome) -> (r: Result<Image, Error>)
        ensures
            match outcome {
                RasterOutcome::Created => r == Ok::<Image, Error>(self),
                RasterOutcome::Refused => r == Err::<Image, Error>(Error::MissingFeature),
            },
    {
        match outcome {
            RasterOutcome::Created => Ok(self),
            RasterOutcome::Refused => Err(Error::MissingFeature),
        }
    }
}

} // verus!
