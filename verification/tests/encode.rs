use libwebp::boxed::RawBytes;
use libwebp::decode::{pixels_len, WEBP_CSP_MODE};
use libwebp::encode::{encode_geometry, encode_size_check, encoded_bytes, encodes};
use libwebp::error::WebPSimpleError;

#[test]
fn size_check_accepts_a_two_by_two_rgba_buffer() {
    let buf: Vec<u8> = vec![255, 255, 255, 255, 255, 0, 0, 255, 0, 255, 0, 255, 0, 0, 255, 255];
    assert!(encode_size_check(buf.len(), 2, 2, 8, 4));
}

#[test]
fn size_check_accepts_exact_lengths() {
    assert!(encode_size_check(49152, 128, 128, 128, 3));
    assert!(encode_size_check(49152, 128, 128, 384, 3));
    assert!(encode_size_check(65536, 128, 128, 512, 4));
    assert!(encode_size_check(30, 5, 2, 15, 3));
    assert!(encode_size_check(0, 5, 0, 15, 3));
}

#[test]
fn size_check_refuses_other_lengths() {
    assert!(!encode_size_check(15, 2, 2, 8, 4));
    assert!(!encode_size_check(17, 2, 2, 8, 4));
    assert!(!encode_size_check(12, 2, 2, 8, 4));
    assert!(!encode_size_check(32, 2, 2, 8, 4));
    assert!(!encode_size_check(16, 2, 2, 8, 3));
    assert!(!encode_size_check(16, 4, 2, 8, 4));
    assert!(!encode_size_check(16, 2, 4, 8, 4));
    assert!(!encode_size_check(0, 2, 2, 8, 4));
    assert!(!encode_size_check(24, 3, 2, 8, 3));
}

#[test]
fn size_check_with_pixels_of_no_bytes() {
    assert!(encode_size_check(0, 2, 2, 8, 0));
    assert!(!encode_size_check(16, 2, 2, 8, 0));
}

#[test]
fn size_check_with_no_columns() {
    assert!(encode_size_check(0, 0, 0, 0, 4));
    assert!(encode_size_check(0, 0, 7, 0, 4));
    assert!(!encode_size_check(4, 0, 7, 0, 4));
}

#[test]
fn size_check_refuses_what_the_codec_cannot_take() {
    assert!(!encode_size_check(0, 2147483648, 0, 0, 4));
    assert!(!encode_size_check(0, 0, 2147483648, 0, 4));
    assert!(!encode_size_check(16, 2, 2, 2147483648, 4));
    assert!(!encode_size_check(16, 2, 2, u32::MAX, 4));
    assert!(encode_size_check(16, 2, 2, 2147483647, 4));
}

#[test]
fn encoded_bytes_takes_the_length_from_the_codec() {
    let buf = encoded_bytes(78, 4096).unwrap();
    assert_eq!(buf.len(), 78);
    assert_eq!(buf.region(), RawBytes { addr: 4096, len: 78 });
    assert_eq!(buf.release(), 4096);
}

#[test]
fn encoded_bytes_fails_on_zero_size() {
    assert_eq!(encoded_bytes(0, 4096), Err(WebPSimpleError));
    assert_eq!(encoded_bytes(0, 0), Err(WebPSimpleError));
}

#[test]
fn encoded_bytes_fails_on_null() {
    assert_eq!(encoded_bytes(78, 0), Err(WebPSimpleError));
}

#[test]
fn what_is_encoded_is_as_long_as_what_is_decoded() {
    for (mode, w, h) in [
        (WEBP_CSP_MODE::MODE_RGB, 128u32, 128u32),
        (WEBP_CSP_MODE::MODE_BGR, 3, 5),
        (WEBP_CSP_MODE::MODE_RGBA, 2, 2),
        (WEBP_CSP_MODE::MODE_BGRA, 7, 1),
    ] {
        let size: usize = mode.pixel_size().unwrap();
        let len: usize = w as usize * h as usize * size;
        assert!(encode_size_check(len, w, h, w * size as u32, size));
        assert_eq!(pixels_len(mode, w as i32, h as i32), Some(len));
    }
}

#[test]
fn encode_geometry_converts_what_passes_the_check() {
    assert_eq!(encode_geometry(WEBP_CSP_MODE::MODE_RGBA, 16, 2, 2, 8), Some((2, 2, 8)));
    assert_eq!(encode_geometry(WEBP_CSP_MODE::MODE_BGRA, 16, 2, 2, 8), Some((2, 2, 8)));
    assert_eq!(encode_geometry(WEBP_CSP_MODE::MODE_RGB, 49152, 128, 128, 128), Some((128, 128, 128)));
    assert_eq!(encode_geometry(WEBP_CSP_MODE::MODE_BGR, 12, 2, 2, 6), Some((2, 2, 6)));
}

#[test]
fn encode_geometry_refuses_what_fails_the_check() {
    assert_eq!(encode_geometry(WEBP_CSP_MODE::MODE_RGB, 16, 2, 2, 8), None);
    assert_eq!(encode_geometry(WEBP_CSP_MODE::MODE_RGBA, 12, 2, 2, 8), None);
    assert_eq!(encode_geometry(WEBP_CSP_MODE::MODE_RGBA, 16, 2, 2, 2147483648), None);
    assert_eq!(encode_geometry(WEBP_CSP_MODE::MODE_YUV, 16, 2, 2, 8), None);
    assert_eq!(encode_geometry(WEBP_CSP_MODE::MODE_YUVA, 0, 0, 0, 0), None);
    assert_eq!(encode_geometry(WEBP_CSP_MODE::MODE_ARGB, 16, 2, 2, 8), None);
    assert_eq!(encode_geometry(WEBP_CSP_MODE::MODE_rgbA, 16, 2, 2, 8), None);
    assert_eq!(encode_geometry(WEBP_CSP_MODE::MODE_RGB_565, 8, 2, 2, 4), None);
}

#[test]
fn encoder_takes_four_layouts() {
    let taken: Vec<bool> = (0u32..13).map(|raw| encodes(WEBP_CSP_MODE::from_raw(raw))).collect();
    assert_eq!(
        taken,
        vec![true, true, true, true, false, false, false, false, false, false, false, false, false]
    );
}
