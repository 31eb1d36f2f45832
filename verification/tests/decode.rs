use libwebp::boxed::RawBytes;
use libwebp::decode::{
    decoded_into, decoded_pixels, decoded_yuv, dimension, half_ceil, header_info, native_int,
    pixels_len, plane_len, yuv_planes, WEBP_CSP_MODE,
};
use libwebp::error::WebPSimpleError;

#[test]
fn dimension_keeps_what_is_not_negative() {
    assert_eq!(dimension(0), Some(0));
    assert_eq!(dimension(128), Some(128));
    assert_eq!(dimension(i32::MAX), Some(2147483647));
    assert_eq!(dimension(-1), None);
    assert_eq!(dimension(i32::MIN), None);
}

#[test]
fn native_int_keeps_what_fits() {
    assert_eq!(native_int(0), Some(0));
    assert_eq!(native_int(512), Some(512));
    assert_eq!(native_int(2147483647), Some(i32::MAX));
    assert_eq!(native_int(2147483648), None);
    assert_eq!(native_int(u32::MAX), None);
}

#[test]
fn native_int_and_dimension_invert_each_other() {
    for v in [0u32, 1, 64, 128, 2147483647] {
        assert_eq!(dimension(native_int(v).unwrap()), Some(v));
    }
    for n in [0i32, 1, 64, 128, 2147483647] {
        assert_eq!(native_int(dimension(n).unwrap()), Some(n));
    }
}

#[test]
fn half_ceil_rounds_up() {
    assert_eq!(half_ceil(0), 0);
    assert_eq!(half_ceil(1), 1);
    assert_eq!(half_ceil(2), 1);
    assert_eq!(half_ceil(3), 2);
    assert_eq!(half_ceil(128), 64);
    assert_eq!(half_ceil(129), 65);
    assert_eq!(half_ceil(u32::MAX), 2147483648);
}

#[test]
fn plane_len_is_stride_times_rows() {
    assert_eq!(plane_len(128, 128), Some(16384));
    assert_eq!(plane_len(64, 64), Some(4096));
    assert_eq!(plane_len(0, 77), Some(0));
    assert_eq!(plane_len(77, 0), Some(0));
    assert_eq!(plane_len(130, 3), Some(390));
}

#[test]
fn pixels_len_is_width_times_height_times_pixel_size() {
    assert_eq!(pixels_len(WEBP_CSP_MODE::MODE_RGBA, 128, 128), Some(65536));
    assert_eq!(pixels_len(WEBP_CSP_MODE::MODE_ARGB, 128, 128), Some(65536));
    assert_eq!(pixels_len(WEBP_CSP_MODE::MODE_BGRA, 128, 128), Some(65536));
    assert_eq!(pixels_len(WEBP_CSP_MODE::MODE_RGB, 128, 128), Some(49152));
    assert_eq!(pixels_len(WEBP_CSP_MODE::MODE_BGR, 128, 128), Some(49152));
    assert_eq!(pixels_len(WEBP_CSP_MODE::MODE_RGB_565, 3, 5), Some(30));
    assert_eq!(pixels_len(WEBP_CSP_MODE::MODE_RGBA, 0, 5), Some(0));
    assert_eq!(pixels_len(WEBP_CSP_MODE::MODE_RGBA, -1, 5), None);
    assert_eq!(pixels_len(WEBP_CSP_MODE::MODE_RGBA, 5, -1), None);
    assert_eq!(pixels_len(WEBP_CSP_MODE::MODE_YUV, 5, 5), None);
    assert_eq!(pixels_len(WEBP_CSP_MODE::MODE_YUVA, 5, 5), None);
}

#[test]
fn header_info_reports_geometry() {
    assert_eq!(header_info(1, 128, 128), Ok((128, 128)));
    assert_eq!(header_info(-1, 2, 3), Ok((2, 3)));
}

#[test]
fn header_info_fails_on_zero_status() {
    assert_eq!(header_info(0, 128, 128), Err(WebPSimpleError));
    assert_eq!(header_info(0, 0, 0), Err(WebPSimpleError));
}

#[test]
fn header_info_fails_on_negative_geometry() {
    assert_eq!(header_info(1, -1, 128), Err(WebPSimpleError));
    assert_eq!(header_info(1, 128, -128), Err(WebPSimpleError));
}

#[test]
fn decoded_pixels_of_a_128_square() {
    for (mode, len) in [
        (WEBP_CSP_MODE::MODE_RGBA, 65536usize),
        (WEBP_CSP_MODE::MODE_ARGB, 65536),
        (WEBP_CSP_MODE::MODE_BGRA, 65536),
        (WEBP_CSP_MODE::MODE_RGB, 49152),
        (WEBP_CSP_MODE::MODE_BGR, 49152),
    ] {
        let (width, height, buf) = decoded_pixels(mode, 0x10000, 128, 128).unwrap();
        assert_eq!(width, 128);
        assert_eq!(height, 128);
        assert_eq!(buf.len(), len);
        assert_eq!(buf.region(), RawBytes { addr: 0x10000, len });
        assert_eq!(buf.len(), width as usize * height as usize * mode.pixel_size().unwrap());
    }
}

#[test]
fn decoded_pixels_of_a_two_by_two_image() {
    let (width, height, buf) = decoded_pixels(WEBP_CSP_MODE::MODE_RGBA, 64, 2, 2).unwrap();
    assert_eq!((width, height), (2, 2));
    assert_eq!(buf.len(), 16);
    assert_eq!(buf.release(), 64);
}

#[test]
fn decoded_pixels_fails_on_null() {
    assert!(matches!(
        decoded_pixels(WEBP_CSP_MODE::MODE_RGBA, 0, 128, 128),
        Err(WebPSimpleError)
    ));
    assert!(matches!(decoded_pixels(WEBP_CSP_MODE::MODE_RGB, 0, 0, 0), Err(WebPSimpleError)));
}

#[test]
fn decoded_pixels_fails_on_what_no_buffer_can_be() {
    assert!(decoded_pixels(WEBP_CSP_MODE::MODE_RGBA, 64, -2, 2).is_err());
    assert!(decoded_pixels(WEBP_CSP_MODE::MODE_RGBA, 64, 2, -2).is_err());
    assert!(decoded_pixels(WEBP_CSP_MODE::MODE_YUV, 64, 2, 2).is_err());
    assert!(decoded_pixels(WEBP_CSP_MODE::MODE_YUVA, 64, 2, 2).is_err());
}

#[test]
fn header_and_decode_report_the_same_geometry() {
    for (w, h) in [(1i32, 1i32), (2, 2), (128, 128), (640, 480), (3, 7)] {
        let info = header_info(1, w, h).unwrap();
        let (width, height, _buf) = decoded_pixels(WEBP_CSP_MODE::MODE_RGBA, 4096, w, h).unwrap();
        assert_eq!(info, (width, height));
    }
}

#[test]
fn yuv_planes_of_a_128_square() {
    let planes = yuv_planes(0x10000, 0x14000, 0x15000, 128, 128, 64).unwrap();
    assert_eq!(planes.0, RawBytes { addr: 0x10000, len: 16384 });
    assert_eq!(planes.1, RawBytes { addr: 0x14000, len: 4096 });
    assert_eq!(planes.2, RawBytes { addr: 0x15000, len: 4096 });
    assert_eq!(yuv_planes(1, 2, 3, -1, 128, 64), None);
    assert_eq!(yuv_planes(1, 2, 3, 128, -1, 64), None);
    assert_eq!(yuv_planes(1, 2, 3, 128, 128, -1), None);
}

#[test]
fn decoded_yuv_of_a_128_square() {
    let (width, height, stride, uv_stride, buf) =
        decoded_yuv(0x10000, 0x14000, 0x15000, 128, 128, 128, 64).unwrap();
    assert_eq!(width, 128);
    assert_eq!(height, 128);
    assert!(stride >= 128);
    assert!(uv_stride >= 64);
    assert_eq!(buf.y().len, stride as usize * height as usize);
    assert_eq!(buf.u().len, uv_stride as usize * ((height as usize + 1) / 2));
    assert_eq!(buf.v().len, uv_stride as usize * ((height as usize + 1) / 2));
    assert_eq!(buf.y().addr, 0x10000);
    assert_eq!(buf.u().addr, 0x14000);
    assert_eq!(buf.v().addr, 0x15000);
    assert_eq!(buf.release(), 0x10000);
}

#[test]
fn decoded_yuv_rounds_chroma_rows_up() {
    let (width, height, stride, uv_stride, buf) =
        decoded_yuv(1000, 1024, 1032, 5, 3, 8, 4).unwrap();
    assert_eq!((width, height, stride, uv_stride), (5, 3, 8, 4));
    assert_eq!(buf.y(), RawBytes { addr: 1000, len: 24 });
    assert_eq!(buf.u(), RawBytes { addr: 1024, len: 8 });
    assert_eq!(buf.v(), RawBytes { addr: 1032, len: 8 });
}

#[test]
fn decoded_yuv_stride_may_exceed_width() {
    let (_w, _h, stride, uv_stride, buf) = decoded_yuv(1000, 2000, 3000, 5, 4, 16, 8).unwrap();
    assert_eq!((stride, uv_stride), (16, 8));
    assert_eq!(buf.y().len, 64);
    assert_eq!(buf.u().len, 16);
    assert_eq!(buf.v().len, 16);
}

#[test]
fn decoded_yuv_fails_on_null() {
    assert!(decoded_yuv(0, 0, 0, 0, 0, 0, 0).is_err());
    assert!(decoded_yuv(0, 0x14000, 0x15000, 128, 128, 128, 64).is_err());
    assert!(decoded_yuv(0x10000, 0, 0x15000, 128, 128, 128, 64).is_err());
    assert!(decoded_yuv(0x10000, 0x14000, 0, 128, 128, 128, 64).is_err());
}

#[test]
fn decoded_yuv_fails_on_negative_geometry() {
    assert!(decoded_yuv(0x10000, 0x14000, 0x15000, -128, 128, 128, 64).is_err());
    assert!(decoded_yuv(0x10000, 0x14000, 0x15000, 128, -128, 128, 64).is_err());
    assert!(decoded_yuv(0x10000, 0x14000, 0x15000, 128, 128, -128, 64).is_err());
    assert!(decoded_yuv(0x10000, 0x14000, 0x15000, 128, 128, 128, -64).is_err());
}

#[test]
fn decoded_yuv_fails_on_planes_that_overlap() {
    assert!(decoded_yuv(0x10000, 0x13fff, 0x15000, 128, 128, 128, 64).is_err());
    assert!(decoded_yuv(0x10000, 0x14000, 0x14fff, 128, 128, 128, 64).is_err());
    assert!(decoded_yuv(0x10000, 0x14000, 0x10000, 128, 128, 128, 64).is_err());
    assert!(decoded_yuv(0x10000, 0x8000, 0x15000, 128, 128, 128, 64).is_err());
}

#[test]
fn decoding_into_fails_on_null_only() {
    assert_eq!(decoded_into(0), Err(WebPSimpleError));
    assert_eq!(decoded_into(1), Ok(()));
    assert_eq!(decoded_into(usize::MAX), Ok(()));
}
