//! Pixel normalization: converting a platform bitmap of arbitrary stride,
//! byte order and alpha layout into a canonical top-down RGBA buffer.

use vstd::prelude::*;
use vstd::string::StringExecFns;
use crate::error::CaptureError;

verus! {

/// Descriptor of a platform capture result. The pixel bytes travel beside it
/// as a plain byte buffer copied out of the platform handle.
#[derive(Clone, Copy, Debug, PartialEq, Eq, Structural)]
pub struct RawBitmap {
    /// Pixels per row.
    pub width: usize,
    /// Number of rows.
    pub height: usize,
    /// Bytes from the start of one row to the start of the next; may exceed
    /// `width * bytes per pixel` when rows are padded.
    pub bytes_per_row: usize,
    /// Bits in one pixel; 32 for the usual BGRA/RGBA layouts.
    pub bits_per_pixel: usize,
    /// Platform bitmap-layout flags: bits 12..=14 carry the byte order and
    /// bits 0..=4 the alpha layout.
    pub bitmap_info: u32,
}

/// Bytes occupied by one source pixel.
pub open spec fn bytes_per_pixel(b: RawBitmap) -> int {
    b.bits_per_pixel as int / 8
}

/// Whether the source pixels are laid out B,G,R,A rather than R,G,B,A:
/// either the byte-order flags say little-endian 32-bit packing, or the
/// pixel is 32-bit and carries an alpha channel.
pub open spec fn is_bgra(b: RawBitmap) -> bool {
    b.bitmap_info & 0x7000 == 0x2000 || (b.bits_per_pixel == 32 && b.bitmap_info & 0x1F != 0)
}

/// Byte offset of pixel (x, y) in the source buffer.
pub open spec fn src_offset(b: RawBitmap, x: int, y: int) -> int {
    y * (b.bytes_per_row as int) + x * bytes_per_pixel(b)
}

/// Whether all four bytes read for pixel (x, y) lie inside a source buffer
/// of `len` bytes.
pub open spec fn pixel_in_range(b: RawBitmap, len: int, x: int, y: int) -> bool {
    src_offset(b, x, y) + 3 < len
}

/// Source byte offset, relative to the pixel's own offset, of output
/// channel `c` (0 = R, 1 = G, 2 = B, 3 = A).
pub open spec fn channel_offset(b: RawBitmap, c: int) -> int {
    if is_bgra(b) {
        if c == 0 { 2 } else if c == 1 { 1 } else if c == 2 { 0 } else { 3 }
    } else {
        c
    }
}

/// Byte `c` of the canonical pixel (x, y): the mapped source byte when the
/// pixel lies inside the buffer, zero otherwise.
pub open spec fn out_byte(b: RawBitmap, data: Seq<u8>, x: int, y: int, c: int) -> u8 {
    if pixel_in_range(b, data.len() as int, x, y) {
        data[src_offset(b, x, y) + channel_offset(b, c)]
    } else {
        0u8
    }
}

/// Byte `i` of the canonical buffer, addressing pixel `i / 4` in row-major
/// order and channel `i % 4`.
pub open spec fn out_byte_at(b: RawBitmap, data: Seq<u8>, i: int) -> u8 {
    out_byte(b, data, (i / 4) % (b.width as int), (i / 4) / (b.width as int), i % 4)
}

/// The canonical top-down RGBA image of a raw bitmap: exactly
/// `width * height * 4` bytes, row-major, no padding.
pub open spec fn normalized(b: RawBitmap, data: Seq<u8>) -> Seq<u8> {
    Seq::new((b.width * b.height * 4) as nat, |i: int| out_byte_at(b, data, i))
}

/// The inputs on which normalization succeeds: nonzero dimensions and a
/// source buffer that covers every full row the descriptor claims.
pub open spec fn valid_raw_input(b: RawBitmap, len: int) -> bool {
    b.width > 0 && b.height > 0 && len >= b.bytes_per_row * b.height
}

/// For a BGRA-layout bitmap, an in-range pixel's output channel order is the
/// reversed input triplet with alpha preserved: output R is source byte 2,
/// output G is source byte 1, output B is source byte 0, and output A is
/// source byte 3.
pub proof fn lemma_bgra_swap(b: RawBitmap, data: Seq<u8>, x: int, y: int)
    requires
        is_bgra(b),
        0 <= x < b.width,
        0 <= y < b.height,
        pixel_in_range(b, data.len() as int, x, y),
    ensures
        normalized(b, data)[4 * (y * b.width + x) + 0] == data[src_offset(b, x, y) + 2],
        normalized(b, data)[4 * (y * b.width + x) + 1] == data[src_offset(b, x, y) + 1],
        normalized(b, data)[4 * (y * b.width + x) + 2] == data[src_offset(b, x, y) + 0],
        normalized(b, data)[4 * (y * b.width + x) + 3] == data[src_offset(b, x, y) + 3],
{
    let w = b.width as int;
    let h = b.height as int;
    let p = y * w + x;
    assert(0 <= p && p + 1 <= w * h && p % w == x && p / w == y) by (nonlinear_arith)
        requires
            0 <= x < w,
            0 <= y < h,
            p == y * w + x,
    ;
    assert((4 * p + 0) / 4 == p && (4 * p + 0) % 4 == 0 && (4 * p + 1) / 4 == p
        && (4 * p + 1) % 4 == 1 && (4 * p + 2) / 4 == p && (4 * p + 2) % 4 == 2
        && (4 * p + 3) / 4 == p && (4 * p + 3) % 4 == 3) by (nonlinear_arith)
        requires
            0 <= p,
    ;
    assert(4 * p + 3 < w * h * 4) by (nonlinear_arith)
        requires
            p + 1 <= w * h,
    ;
}

/// Normalize a raw bitmap into a canonical RGBA buffer.
///
/// Fails exactly when the dimensions are zero or the byte view is shorter
/// than `bytes_per_row * height`, naming which of the two it was. Pixels
/// whose computed offsets fall outside the buffer anyway (malformed stride
/// metadata) are left as zeros rather than failing.
pub fn normalize(bmp: &RawBitmap, data: &Vec<u8>) -> (r: Result<Vec<u8>, CaptureError>)
    requires
        bmp.width * bmp.height * 4 <= usize::MAX,
    ensures
        r is Ok <==> valid_raw_input(*bmp, data@.len() as int),
        r matches Ok(out) ==> out@ == normalized(*bmp, data@),
        r matches Err(e) ==> (e matches CaptureError::CaptureFailed(m) && m@ == (
        if bmp.width == 0 || bmp.height == 0 {
            "Empty image"@
        } else {
            "Pixel data shorter than stride times height"@
        })),
{
    let w = bmp.width;
    let h = bmp.height;
    let dlen = data.len();
    if w == 0 || h == 0 {
        return Err(CaptureError::CaptureFailed(String::from_str("Empty image")));
    }
    let needed = match bmp.bytes_per_row.checked_mul(h) {
        Some(n) => n,
        None => {
            return Err(CaptureError::CaptureFailed(String::from_str(
                "Pixel data shorter than stride times height",
            )));
        },
    };
    if dlen < needed {
        return Err(CaptureError::CaptureFailed(String::from_str(
            "Pixel data shorter than stride times height",
        )));
    }

    let byte_order = bmp.bitmap_info & 0x7000;
    let alpha_info = bmp.bitmap_info & 0x1F;
    let bgra = byte_order == 0x2000 || (bmp.bits_per_pixel == 32 && alpha_info != 0);
    let bpp8 = bmp.bits_per_pixel / 8;

    let mut out: Vec<u8> = Vec::new();
    let mut y: usize = 0;
    while y < h
        invariant
            w == bmp.width,
            h == bmp.height,
            dlen == data@.len(),
            bpp8 == bytes_per_pixel(*bmp),
            bgra == is_bgra(*bmp),
            w > 0,
            0 <= y <= h,
            data@.len() >= bmp.bytes_per_row * h,
            out@.len() == 4 * (y * w),
            forall |i: int| 0 <= i < out@.len() ==> out@[i] == out_byte_at(*bmp, data@, i),
        decreases h - y,
    {
        proof {
            assert(y * bmp.bytes_per_row <= bmp.bytes_per_row * h) by (nonlinear_arith)
                requires
                    0 <= y < h,
                    bmp.bytes_per_row >= 0,
            ;
        }
        let row_start = y * bmp.bytes_per_row;
        let mut x: usize = 0;
        while x < w
            invariant
                w == bmp.width,
                h == bmp.height,
                dlen == data@.len(),
                bpp8 == bytes_per_pixel(*bmp),
                bgra == is_bgra(*bmp),
                w > 0,
                0 <= y < h,
                0 <= x <= w,
                data@.len() >= bmp.bytes_per_row * h,
                row_start == y * bmp.bytes_per_row,
                out@.len() == 4 * (y * w + x),
                forall |i: int| 0 <= i < out@.len() ==> out@[i] == out_byte_at(*bmp, data@, i),
            decreases w - x,
        {
            let ghost p: int = y * w + x;
            proof {
                assert(p % (w as int) == x && p / (w as int) == y) by (nonlinear_arith)
                    requires
                        0 <= x < w,
                        0 <= y,
                        w > 0,
                        p == y * w + x,
                ;
                assert((4 * p + 0) / 4 == p && (4 * p + 0) % 4 == 0 && (4 * p + 1) / 4 == p
                    && (4 * p + 1) % 4 == 1 && (4 * p + 2) / 4 == p && (4 * p + 2) % 4 == 2
                    && (4 * p + 3) / 4 == p && (4 * p + 3) % 4 == 3) by (nonlinear_arith)
                    requires
                        0 <= p,
                ;
            }

            match locate_pixel(row_start, x, bpp8, dlen) {
                Some(off) => {
                    assert(off == src_offset(*bmp, x as int, y as int));
                    assert(pixel_in_range(*bmp, data@.len() as int, x as int, y as int));
                    if bgra {
                        out.push(data[off + 2]);
                        out.push(data[off + 1]);
                        out.push(data[off]);
                        out.push(data[off + 3]);
                    } else {
                        out.push(data[off]);
                        out.push(data[off + 1]);
                        out.push(data[off + 2]);
                        out.push(data[off + 3]);
                    }
                },
                None => {
                    assert(!pixel_in_range(*bmp, data@.len() as int, x as int, y as int));
                    out.push(0);
                    out.push(0);
                    out.push(0);
                    out.push(0);
                },
            }
            x = x + 1;
        }
        proof {
            assert(y * w + w == (y + 1) * w) by (nonlinear_arith);
        }
        y = y + 1;
    }

    proof {
        assert(4 * (h * w) == w * h * 4) by (nonlinear_arith);
        assert(out@ =~= normalized(*bmp, data@));
    }
    Ok(out)
}

/// Byte offset of the four-byte read for the pixel `x` of the row starting
/// at `row_start`, when that whole read fits inside a buffer of `dlen`
/// bytes; `None` when it does not, including when the offset itself cannot
/// be represented.
fn locate_pixel(row_start: usize, x: usize, bpp8: usize, dlen: usize) -> (r: Option<usize>)
    ensures
        r matches Some(o) ==> o == row_start + x * bpp8 && o + 3 < dlen,
        r is None ==> row_start + x * bpp8 + 3 >= dlen,
{
    match x.checked_mul(bpp8) {
        Some(xo) => {
            match row_start.checked_add(xo) {
                Some(o) => {
                    if o <= usize::MAX - 3 && o + 3 < dlen {
                        Some(o)
                    } else {
                        None
                    }
                },
                None => None,
            }
        },
        None => None,
    }
}

} // verus!
