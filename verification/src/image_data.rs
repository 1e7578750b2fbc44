//! The in-memory grayscale image and the decode step that materializes it
//! from the request's raw byte buffer.

use vstd::prelude::*;
use crate::errors::ServiceError;

verus! {

/// An in-memory grayscale image: flat row-major bytes, one byte per pixel.
/// A well-formed value holds exactly `width * height` bytes.
#[derive(Debug)]
pub struct RawImage {
    pub width: u32,
    pub height: u32,
    pub pixels: Vec<u8>,
}

impl RawImage {
    /// The buffer holds exactly one byte per declared pixel.
    pub open spec fn wf(&self) -> bool {
        self.pixels@.len() == self.width as int * self.height as int
    }
}

/// Whether a declared `width` by `height` and a buffer of `len` bytes describe
/// an image: non-negative dimensions and exactly one byte per pixel.
pub open spec fn dims_match(width: int, height: int, len: int) -> bool {
    &&& width >= 0
    &&& height >= 0
    &&& len == width * height
}

/// Materializes the request's raw byte buffer as an image. No format is
/// inferred: the buffer is taken as a flat row-major byte array. Succeeds
/// exactly when the buffer length equals the declared `width * height`;
/// a mismatched buffer is a recoverable validation failure, never a crash.
pub fn decode_image(width: i32, height: i32, data: Vec<u8>) -> (r: Result<RawImage, ServiceError>)
    ensures
        dims_match(width as int, height as int, data@.len() as int) ==> (r matches Ok(img)
            && img.width == width && img.height == height && img.pixels == data && img.wf()),
        !dims_match(width as int, height as int, data@.len() as int) ==> r == Err::<
            RawImage,
            ServiceError,
        >(ServiceError::MalformedImage),
{
    if width < 0 || height < 0 {
        return Err(ServiceError::MalformedImage);
    }
    let w: u64 = width as u64;
    let h: u64 = height as u64;
    proof {
        assert(w * h < 0x4000000000000000u64) by (nonlinear_arith)
            requires
                w < 0x80000000u64,
                h < 0x80000000u64,
        ;
    }
    let need: u64 = w * h;
    if (data.len() as u64) != need {
        return Err(ServiceError::MalformedImage);
    }
    Ok(RawImage { width: width as u32, height: height as u32, pixels: data })
}

} // verus!
