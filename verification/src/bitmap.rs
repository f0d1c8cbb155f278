//! Bitmap targets: surfaces in memory that a render context draws to and
//! whose pixels can be read back.

use vstd::prelude::*;
use vstd::slice::slice_to_vec;
use vstd::string::*;
use crate::core_graphics::context::{setup_plan, CoreGraphicsRenderContext};
use crate::core_graphics::image::{AlphaInfo, BITS_PER_COMPONENT};
use crate::core_graphics::ops::CgOp;
use crate::error::Error;
use crate::geometry::{Affine, Scalar, Size};
use crate::image::{buffer_len, checked_buffer_len, ImageFormat};

verus! {

/// The bytes that one pixel of a bitmap target takes.
pub const TARGET_BYTES_PER_PIXEL: usize = 4;

/// The maker of bitmap targets. It keeps no state.
#[derive(Clone, Copy, Debug, PartialEq, Eq, Structural)]
pub struct Device {}

/// A surface in memory of `width` by `height` pixels, four bytes each: red,
/// green, blue, then alpha, the colours already scaled by alpha.
#[derive(Clone, Copy, Debug, PartialEq, Eq, Structural)]
pub struct BitmapTarget {
    pub width: usize,
    pub height: usize,
    pub bits_per_component: usize,
    pub bytes_per_row: usize,
    pub alpha: AlphaInfo,
    /// How many pixels one unit of the caller's coordinates spans.
    pub pix_scale: Scalar,
}

impl BitmapTarget {
    /// Whether the target's rows hold its pixels without padding and the
    /// whole surface can be counted in bytes.
    pub open spec fn wf(&self) -> bool {
        &&& self.bits_per_component == BITS_PER_COMPONENT
        &&& self.alpha == AlphaInfo::PremultipliedLast
        &&& self.bytes_per_row as int == self.width as int * TARGET_BYTES_PER_PIXEL as int
        &&& buffer_len(self.width, self.height, TARGET_BYTES_PER_PIXEL) <= usize::MAX
    }

    /// The number of bytes of the surface.
    pub open spec fn byte_len(&self) -> int {
        buffer_len(self.width, self.height, TARGET_BYTES_PER_PIXEL)
    }
}

/// The plan that readies a fresh surface: the scale from the caller's units
/// to pixels.
pub open spec fn target_setup_plan<'a>(pix_scale: Scalar) -> Seq<CgOp<'a>> {
    seq![CgOp::ConcatCtm(Affine::scale_non_uniform(pix_scale, pix_scale))]
}

impl Device {
    /// A device.
    pub fn new() -> (r: Result<Device, Error>)
        ensures
            r is Ok,
    {
        Ok(Device {  })
    }

    /// Describes a new bitmap target, and what is to be issued to its
    /// engine before anything else.
    ///
    /// A surface whose rows or whose whole cannot be counted in bytes is
    /// invalid input.
    pub fn bitmap_target<'a>(&mut self, width: usize, height: usize, pix_scale: Scalar) -> (r:
        Result<(BitmapTarget, Vec<CgOp<'a>>), Error>)
        ensures
            match r {
                Ok((target, plan)) => {
                    &&& target.wf()
                    &&& target.width == width
                    &&& target.height == height
                    &&& target.pix_scale == pix_scale
                    &&& plan@ == target_setup_plan(pix_scale)
                },
                Err(e) => {
                    &&& e == Error::InvalidInput
                    &&& buffer_len(width, height, TARGET_BYTES_PER_PIXEL) > usize::MAX || width
                        as int * TARGET_BYTES_PER_PIXEL as int > usize::MAX
                },
            },
    {
        match checked_buffer_len(width, height, TARGET_BYTES_PER_PIXEL) {
            None => Err(Error::InvalidInput),
            Some((bytes_per_row, _)) => {
                let target = BitmapTarget {
                    width,
                    height,
                    bits_per_component: BITS_PER_COMPONENT,
                    bytes_per_row,
                    alpha: AlphaInfo::PremultipliedLast,
                    pix_scale,
                };
                let mut plan: Vec<CgOp<'a>> = Vec::new();
                plan.push(CgOp::ConcatCtm(Affine::scale_non_uniform(pix_scale, pix_scale)));
                Ok((target, plan))
            },
        }
    }
}

impl BitmapTarget {
    /// A render context for the target. `size` is the width and the height
    /// of the target as coordinates. The engine of a bitmap target has its
    /// vertical axis pointing down already, so the plan is empty.
    pub fn render_context<'a>(&mut self, size: Size) -> (r: (
        CoreGraphicsRenderContext,
        Vec<CgOp<'a>>,
    ))
        ensures
            *final(self) == *old(self),
            r.0.size_spec() == size,
            r.0.saved_spec() == 0,
            r.0.deferred_spec() is None,
            r.1@ == setup_plan(size, true),
            r.1@.len() == 0,
    {
        CoreGraphicsRenderContext::new(size, true)
    }

    /// What is to be issued before the pixels are read: for the one format
    /// that can be read, a flush. Every other format is not supported.
    pub fn raw_pixels_plan<'a>(&self, fmt: ImageFormat) -> (r: Result<Vec<CgOp<'a>>, Error>)
        ensures
            match r {
                Ok(plan) => fmt == ImageFormat::RgbaPremul && plan@ == seq![CgOp::Flush],
                Err(e) => fmt != ImageFormat::RgbaPremul && e == Error::NotSupported,
            },
    {
        match fmt {
            ImageFormat::RgbaPremul => {
                let mut plan: Vec<CgOp<'a>> = Vec::new();
                plan.push(CgOp::Flush);
                Ok(plan)
            },
            _ => Err(Error::NotSupported),
        }
    }

    /// The pixels of the target in the format asked for.
    ///
    /// `data` is what the engine holds for the surface once it has carried
    /// out everything issued. Only `RgbaPremul` can be read; every other
    /// format is not supported. Data of another length than the surface's
    /// is a backend error. Otherwise the pixels are the data, byte for byte,
    /// four bytes to a pixel.
    pub fn into_raw_pixels(self, fmt: ImageFormat, data: &[u8]) -> (r: Result<Vec<u8>, Error>)
        ensures
            match r {
                Ok(pixels) => {
                    &&& fmt == ImageFormat::RgbaPremul
                    &&& pixels@ == data@
                    &&& pixels@.len() == self.byte_len()
                },
                Err(e) => if fmt != ImageFormat::RgbaPremul {
                    e == Error::NotSupported
                } else {
                    e is BackendError && data@.len() != self.byte_len()
                },
            },
    {
        match fmt {
            ImageFormat::RgbaPremul => {},
            _ => {
                return Err(Error::NotSupported);
            },
        }
        let len: usize = data.len();
        let expected: Option<usize> = if self.height == 0 {
            Some(0)
        } else {
            match checked_buffer_len(self.width, self.height, TARGET_BYTES_PER_PIXEL) {
                Some((_, all)) => Some(all),
                None => {
                    assert(self.byte_len() > usize::MAX) by (nonlinear_arith)
                        requires
                            self.height >= 1,
                            self.width * 4 > usize::MAX || self.width * 4 * self.height
                                > usize::MAX,
                            self.byte_len() == self.width * 4 * self.height,
                    ;
                    None
                },
            }
        };
        match expected {
            Some(all) => {
                if len == all {
                    return Ok(slice_to_vec(data));
                }
            },
            None => {},
        }
        Err(Error::BackendError(String::from_str("surface data of the wrong length")))
    }
}

} // verus!
