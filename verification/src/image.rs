//! Pixel formats of raw image buffers.

use vstd::prelude::*;

verus! {

/// How the bytes of a raw pixel buffer are to be read. Rows follow one
/// another from the top, pixels from the left, with no padding.
#[derive(Clone, Copy, Debug, PartialEq, Eq, Structural)]
pub enum ImageFormat {
    /// Three bytes per pixel: red, green, blue. Opaque.
    Rgb,
    /// Four bytes per pixel: red, green, blue, alpha, the colours not scaled
    /// by alpha.
    RgbaSeparate,
    /// Four bytes per pixel: red, green, blue, alpha, the colours already
    /// scaled by alpha.
    RgbaPremul,
    /// Any format for which no layout is defined here.
    Other,
}

/// How an image is sampled when it is drawn at another size.
#[derive(Clone, Copy, Debug, PartialEq, Eq, Structural)]
pub enum InterpolationMode {
    NearestNeighbor,
    Bilinear,
}

impl ImageFormat {
    /// The bytes that one pixel takes, for the formats that have a layout.
    pub open spec fn bytes_per_pixel_spec(self) -> Option<usize> {
        match self {
            ImageFormat::Rgb => Some(3usize),
            ImageFormat::RgbaSeparate => Some(4usize),
            ImageFormat::RgbaPremul => Some(4usize),
            ImageFormat::Other => None,
        }
    }

    /// The bytes that one pixel takes, for the formats that have a layout.
    #[verifier::when_used_as_spec(bytes_per_pixel_spec)]
    pub fn bytes_per_pixel(self) -> (n: Option<usize>)
        ensures
            n == self.bytes_per_pixel_spec(),
    {
        match self {
            ImageFormat::Rgb => Some(3),
            ImageFormat::RgbaSeparate => Some(4),
            ImageFormat::RgbaPremul => Some(4),
            ImageFormat::Other => None,
        }
    }
}

/// The length of the buffer that holds `width` by `height` pixels of
/// `bytes_per_pixel` bytes each.
pub open spec fn buffer_len(width: usize, height: usize, bytes_per_pixel: usize) -> int {
    width as int * bytes_per_pixel as int * height as int
}

/// The number of bytes in a buffer of `width` by `height` pixels, if the
/// bytes of one row and of the whole buffer can be counted in a `usize`.
pub fn checked_buffer_len(width: usize, height: usize, bytes_per_pixel: usize) -> (n: Option<
    (usize, usize),
>)
    ensures
        match n {
            Some((row, all)) => {
                &&& row as int == width as int * bytes_per_pixel as int
                &&& all as int == buffer_len(width, height, bytes_per_pixel)
            },
            None => {
                ||| width as int * bytes_per_pixel as int > usize::MAX
                ||| buffer_len(width, height, bytes_per_pixel) > usize::MAX
            },
        },
{
    match width.checked_mul(bytes_per_pixel) {
        None => None,
        Some(row) => match row.checked_mul(height) {
            None => None,
            Some(all) => Some((row, all)),
        },
    }
}

} // verus!
