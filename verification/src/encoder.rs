//! Encoding a canonical RGBA buffer into a portable image container.
//!
//! The container formats themselves are produced by the `image` crate; this
//! module names each encoder's output and dispatches on the requested format.

use vstd::prelude::*;
use crate::config::ImageFormat;
use crate::error::CaptureError;

verus! {

/// The PNG container bytes the `image` crate produces for a
/// `width` x `height` RGBA buffer.
pub uninterp spec fn png_encoding(width: nat, height: nat, pixels: Seq<u8>) -> Seq<u8>;

/// The JPEG container bytes the `image` crate produces for a
/// `width` x `height` RGBA buffer at an integer quality 0..=100.
pub uninterp spec fn jpeg_encoding(width: nat, height: nat, pixels: Seq<u8>, quality: nat) -> Seq<u8>;

/// The TIFF container bytes the `image` crate produces for a
/// `width` x `height` RGBA buffer.
pub uninterp spec fn tiff_encoding(width: nat, height: nat, pixels: Seq<u8>) -> Seq<u8>;

/// The container bytes for a canonical image in the requested format.
pub open spec fn encoding(width: nat, height: nat, pixels: Seq<u8>, format: ImageFormat) -> Seq<u8> {
    match format {
        ImageFormat::Png => png_encoding(width, height, pixels),
        ImageFormat::Jpeg { quality } => jpeg_encoding(width, height, pixels, quality as nat),
        ImageFormat::Tiff => tiff_encoding(width, height, pixels),
    }
}

/// Dimensions on which the format's encoder is known to succeed: PNG takes
/// any nonzero dimensions; JPEG holds each dimension in a 16-bit field;
/// TIFF holds file offsets in 32 bits, which a three-gigabyte payload
/// keeps comfortably clear of.
pub open spec fn encoder_accepts(width: nat, height: nat, format: ImageFormat) -> bool {
    match format {
        ImageFormat::Png => width > 0 && height > 0,
        ImageFormat::Jpeg { .. } => 1 <= width <= 65535 && 1 <= height <= 65535,
        ImageFormat::Tiff => width > 0 && height > 0 && width * height * 4 <= 0xC000_0000,
    }
}

/// Dimensions on which the format's encoder is known to fail.
pub open spec fn encoder_rejects(width: nat, height: nat, format: ImageFormat) -> bool {
    match format {
        ImageFormat::Png => width == 0 || height == 0,
        ImageFormat::Jpeg { .. } => !(1 <= width <= 65535 && 1 <= height <= 65535),
        ImageFormat::Tiff => width == 0 || height == 0,
    }
}

/// Relies on `image::RgbaImage::from_raw` (which accepts a buffer of exactly
/// `width * height * 4` bytes) and `image::DynamicImage::write_to` with the
/// PNG format: the output is a function of the dimensions and pixels alone,
/// and the only failure its encoder has when writing to memory is a zero
/// width or height.
#[verifier::external_body]
fn png_encode_raw(width: u32, height: u32, pixels: Vec<u8>) -> (r: Result<Vec<u8>, String>)
    requires
        pixels@.len() == width * height * 4,
    ensures
        r matches Ok(b) ==> b@ == png_encoding(width as nat, height as nat, pixels@),
        width > 0 && height > 0 ==> r is Ok,
        width == 0 || height == 0 ==> r is Err,
{
    let img = match image::RgbaImage::from_raw(width, height, pixels) {
        Some(i) => i,
        None => return Err("pixel buffer size mismatch".to_string()),
    };
    let mut buf: Vec<u8> = Vec::new();
    let mut cur = std::io::Cursor::new(&mut buf);
    match image::DynamicImage::ImageRgba8(img).write_to(&mut cur, image::ImageFormat::Png) {
        Ok(()) => Ok(buf),
        Err(e) => Err(e.to_string()),
    }
}

/// Relies on `image::RgbaImage::from_raw`,
/// `image::codecs::jpeg::JpegEncoder::new_with_quality` and
/// `image::DynamicImage::write_with_encoder`: the output is a function of
/// the dimensions, pixels and quality alone, and when writing to memory
/// its encoder fails exactly when a dimension falls outside the format's
/// 16-bit range 1..=65535.
#[verifier::external_body]
fn jpeg_encode_raw(width: u32, height: u32, pixels: Vec<u8>, quality: u8) -> (r: Result<
    Vec<u8>,
    String,
>)
    requires
        pixels@.len() == width * height * 4,
        quality <= 100,
    ensures
        r matches Ok(b) ==> b@ == jpeg_encoding(width as nat, height as nat, pixels@, quality as nat),
        1 <= width <= 65535 && 1 <= height <= 65535 ==> r is Ok,
        !(1 <= width <= 65535 && 1 <= height <= 65535) ==> r is Err,
{
    let img = match image::RgbaImage::from_raw(width, height, pixels) {
        Some(i) => i,
        None => return Err("pixel buffer size mismatch".to_string()),
    };
    let mut buf: Vec<u8> = Vec::new();
    let mut cur = std::io::Cursor::new(&mut buf);
    let enc = image::codecs::jpeg::JpegEncoder::new_with_quality(&mut cur, quality);
    match image::DynamicImage::ImageRgba8(img).write_with_encoder(enc) {
        Ok(()) => Ok(buf),
        Err(e) => Err(e.to_string()),
    }
}

/// Relies on `image::RgbaImage::from_raw` and
/// `image::DynamicImage::write_to` with the TIFF format: the output is a
/// function of the dimensions and pixels alone; its encoder rejects a zero
/// width or height, and succeeds whenever the pixel payload also leaves
/// the format's 32-bit file offsets room — three gigabytes is well clear.
/// Between those bounds nothing is claimed either way.
#[verifier::external_body]
fn tiff_encode_raw(width: u32, height: u32, pixels: Vec<u8>) -> (r: Result<Vec<u8>, String>)
    requires
        pixels@.len() == width * height * 4,
    ensures
        r matches Ok(b) ==> b@ == tiff_encoding(width as nat, height as nat, pixels@),
        width > 0 && height > 0 && width * height * 4 <= 0xC000_0000 ==> r is Ok,
        width == 0 || height == 0 ==> r is Err,
{
    let img = match image::RgbaImage::from_raw(width, height, pixels) {
        Some(i) => i,
        None => return Err("pixel buffer size mismatch".to_string()),
    };
    let mut buf: Vec<u8> = Vec::new();
    let mut cur = std::io::Cursor::new(&mut buf);
    match image::DynamicImage::ImageRgba8(img).write_to(&mut cur, image::ImageFormat::Tiff) {
        Ok(()) => Ok(buf),
        Err(e) => Err(e.to_string()),
    }
}

/// Serialize a canonical RGBA buffer into the requested container format.
///
/// Pure for well-formed input: the bytes are a function of the dimensions,
/// pixels, format and quality, success is owed on every dimension the
/// format's encoder accepts, and an underlying encoder failure is surfaced
/// as an `Image`-kind error, never masked.
pub fn encode(width: u32, height: u32, pixels: Vec<u8>, format: &ImageFormat) -> (r: Result<
    Vec<u8>,
    CaptureError,
>)
    requires
        pixels@.len() == width * height * 4,
        (*format matches ImageFormat::Jpeg { quality } ==> quality <= 100),
    ensures
        r matches Ok(b) ==> b@ == encoding(width as nat, height as nat, pixels@, *format),
        encoder_accepts(width as nat, height as nat, *format) ==> r is Ok,
        encoder_rejects(width as nat, height as nat, *format) ==> r is Err,
        r matches Err(e) ==> e is Image,
{
    let enc = match format {
        ImageFormat::Png => png_encode_raw(width, height, pixels),
        ImageFormat::Jpeg { quality } => jpeg_encode_raw(width, height, pixels, *quality),
        ImageFormat::Tiff => tiff_encode_raw(width, height, pixels),
    };
    match enc {
        Ok(b) => Ok(b),
        Err(m) => Err(CaptureError::Image(m)),
    }
}

/// The file extension conventionally used for each container format.
pub fn format_extension(format: &ImageFormat) -> (r: &'static str)
    ensures
        *format is Png ==> r@ == "png"@,
        *format is Jpeg ==> r@ == "jpg"@,
        *format is Tiff ==> r@ == "tiff"@,
{
    match format {
        ImageFormat::Png => "png",
        ImageFormat::Jpeg { .. } => "jpg",
        ImageFormat::Tiff => "tiff",
    }
}

} // verus!
