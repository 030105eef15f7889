//! The one-shot capture pipeline: a raw platform bitmap is normalized into
//! canonical RGBA and then encoded into the requested container format.
//!
//! Obtaining the raw bitmap is the platform layer's job; it hands the
//! descriptor and the copied pixel bytes to [`encode_raw_capture`] and gets
//! portable container bytes back.

use vstd::prelude::*;
use vstd::string::StringExecFns;
use crate::config::ImageFormat;
use crate::encoder;
use crate::encoder::encoding;
use crate::error::CaptureError;
use crate::pixel;
use crate::pixel::{normalized, valid_raw_input, RawBitmap};

verus! {

/// JPEG quality with out-of-scale requests saturated to 100.
pub open spec fn clamp_quality(q: u8) -> u8 {
    if q > 100 { 100u8 } else { q }
}

/// The requested format with any JPEG quality clamped to 0..=100.
pub open spec fn clamp_format(format: ImageFormat) -> ImageFormat {
    match format {
        ImageFormat::Jpeg { quality } => ImageFormat::Jpeg { quality: clamp_quality(quality) },
        _ => format,
    }
}

/// Whether the pipeline can represent the bitmap's dimensions: the canonical
/// buffer length must fit in a `usize` and each dimension in a `u32`.
pub open spec fn dims_representable(b: RawBitmap) -> bool {
    b.width * b.height * 4 <= usize::MAX && b.width <= u32::MAX && b.height <= u32::MAX
}

/// Normalize a raw bitmap and encode it in the requested format.
///
/// Fails with `CaptureFailed` when the bitmap is malformed (zero dimensions,
/// a byte view shorter than `bytes_per_row * height`, or dimensions too
/// large to represent), and surfaces any underlying encoder failure as an
/// `Image`-kind error. On success the bytes are exactly the encoding of the
/// canonical RGBA image — and success is owed whenever the input is valid,
/// representable, and sized for the format's encoder.
pub fn encode_raw_capture(bmp: &RawBitmap, data: &Vec<u8>, format: &ImageFormat) -> (r: Result<
    Vec<u8>,
    CaptureError,
>)
    ensures
        r matches Ok(b) ==> valid_raw_input(*bmp, data@.len() as int) && dims_representable(*bmp)
            && b@ == encoding(
            bmp.width as nat,
            bmp.height as nat,
            normalized(*bmp, data@),
            clamp_format(*format),
        ),
        valid_raw_input(*bmp, data@.len() as int) && dims_representable(*bmp)
            && encoder::encoder_accepts(bmp.width as nat, bmp.height as nat, clamp_format(*format))
            ==> r is Ok,
        valid_raw_input(*bmp, data@.len() as int) && dims_representable(*bmp)
            && encoder::encoder_rejects(bmp.width as nat, bmp.height as nat, clamp_format(*format))
            ==> r is Err,
        !(valid_raw_input(*bmp, data@.len() as int) && dims_representable(*bmp)) ==> (
        r matches Err(e) && e is CaptureFailed),
        bmp.width == 0 || bmp.height == 0 ==> (r matches Err(e) && (e matches
        CaptureError::CaptureFailed(m) && m@ == "Empty image"@)),
        r matches Err(e) ==> e is CaptureFailed || e is Image,
{
    let four: usize = 4;
    let fits = match bmp.width.checked_mul(bmp.height) {
        Some(px) => px.checked_mul(four).is_some(),
        None => false,
    };
    if !fits {
        proof {
            assert(bmp.width * bmp.height * 4 > usize::MAX) by (nonlinear_arith)
                requires
                    bmp.width * bmp.height > usize::MAX || (bmp.width * bmp.height <= usize::MAX
                        && (bmp.width * bmp.height) * 4 > usize::MAX),
            ;
            assert(bmp.width > 0 && bmp.height > 0) by (nonlinear_arith)
                requires
                    bmp.width * bmp.height * 4 > usize::MAX,
            ;
        }
        return Err(CaptureError::CaptureFailed(String::from_str("Image dimensions too large")));
    }
    let rgba = match pixel::normalize(bmp, data) {
        Ok(v) => v,
        Err(e) => return Err(e),
    };
    if bmp.width > u32::MAX as usize || bmp.height > u32::MAX as usize {
        return Err(CaptureError::CaptureFailed(String::from_str("Image dimensions too large")));
    }
    let width = bmp.width as u32;
    let height = bmp.height as u32;
    let fmt = match format {
        ImageFormat::Jpeg { quality } => {
            let q = if *quality > 100 { 100u8 } else { *quality };
            ImageFormat::Jpeg { quality: q }
        },
        ImageFormat::Png => ImageFormat::Png,
        ImageFormat::Tiff => ImageFormat::Tiff,
    };
    encoder::encode(width, height, rgba, &fmt)
}

} // verus!
