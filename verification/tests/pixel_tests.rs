use screencap::pixel::{normalize, RawBitmap};

fn bmp(width: usize, height: usize, bytes_per_row: usize, bits_per_pixel: usize, info: u32) -> RawBitmap {
    RawBitmap { width, height, bytes_per_row, bits_per_pixel, bitmap_info: info }
}

// Little-endian 32-bit packing flag: sources are BGRA.
const BGRA_INFO: u32 = 0x2004;
// No byte-order flag, no alpha info: sources are already RGBA.
const RGBA_INFO: u32 = 0;

#[test]
fn bgra_pixel_is_swapped_to_rgba() {
    let b = bmp(1, 1, 4, 32, BGRA_INFO);
    let data = vec![10u8, 20, 30, 40];
    let out = normalize(&b, &data).unwrap();
    assert_eq!(out, vec![30u8, 20, 10, 40]);
}

#[test]
fn rgba_pixel_is_copied_directly() {
    let b = bmp(1, 1, 4, 32, RGBA_INFO);
    let data = vec![10u8, 20, 30, 40];
    let out = normalize(&b, &data).unwrap();
    assert_eq!(out, vec![10u8, 20, 30, 40]);
}

#[test]
fn alpha_layout_flag_alone_means_bgra_for_32_bit() {
    // Byte order says nothing, but a 32-bit pixel with nonzero alpha info
    // is treated as BGRA.
    let b = bmp(1, 1, 4, 32, 0x0002);
    let data = vec![1u8, 2, 3, 4];
    let out = normalize(&b, &data).unwrap();
    assert_eq!(out, vec![3u8, 2, 1, 4]);
}

#[test]
fn bgra_channel_order_reversed_across_strides() {
    // The BGRA law on a 2x2 image under several row paddings: the output
    // triplet is the reversed input triplet, alpha preserved.
    for pad in [0usize, 1, 3, 8] {
        let stride = 8 + pad;
        let mut data = vec![0u8; stride * 2];
        for y in 0..2usize {
            for x in 0..2usize {
                let off = y * stride + x * 4;
                data[off] = (100 + 10 * y + x) as u8; // B
                data[off + 1] = (50 + 10 * y + x) as u8; // G
                data[off + 2] = (10 * y + x) as u8; // R
                data[off + 3] = 200; // A
            }
        }
        let b = bmp(2, 2, stride, 32, BGRA_INFO);
        let out = normalize(&b, &data).unwrap();
        assert_eq!(out.len(), 16);
        for y in 0..2usize {
            for x in 0..2usize {
                let off = y * stride + x * 4;
                let o = 4 * (y * 2 + x);
                assert_eq!(out[o], data[off + 2]);
                assert_eq!(out[o + 1], data[off + 1]);
                assert_eq!(out[o + 2], data[off]);
                assert_eq!(out[o + 3], data[off + 3]);
            }
        }
    }
}

#[test]
fn zero_width_fails() {
    let b = bmp(0, 1, 4, 32, RGBA_INFO);
    let data = vec![0u8; 4];
    assert!(normalize(&b, &data).is_err());
}

#[test]
fn zero_height_fails() {
    let b = bmp(1, 0, 4, 32, RGBA_INFO);
    let data = vec![0u8; 4];
    assert!(normalize(&b, &data).is_err());
}

#[test]
fn short_buffer_fails() {
    let b = bmp(2, 2, 8, 32, RGBA_INFO);
    let data = vec![0u8; 15]; // needs 16
    assert!(normalize(&b, &data).is_err());
}

#[test]
fn out_of_range_pixels_read_as_zero() {
    // The stride covers the rows, but the claimed pixel size pushes the
    // second pixel of each row past the end of the buffer: those pixels
    // come out as zeros instead of failing.
    let b = bmp(2, 1, 4, 64, RGBA_INFO);
    let data = vec![9u8, 8, 7, 6];
    let out = normalize(&b, &data).unwrap();
    assert_eq!(out, vec![9u8, 8, 7, 6, 0, 0, 0, 0]);
}

#[test]
fn output_length_is_always_width_height_four() {
    let b = bmp(3, 2, 12, 32, RGBA_INFO);
    let data = vec![1u8; 24];
    let out = normalize(&b, &data).unwrap();
    assert_eq!(out.len(), 3 * 2 * 4);
}
