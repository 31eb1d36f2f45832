use libwebp::boxed::{check_planes, wrap_bytes, RawBytes, WebpBox, WebpYuvBox};
use libwebp::error::WebPSimpleError;
use libwebp::incremental::WebPIDecoderBox;

fn region(addr: usize, len: usize) -> RawBytes {
    RawBytes { addr, len }
}

#[test]
fn error_message() {
    assert_eq!(WebPSimpleError.message(), "WebP format error");
}

#[test]
fn region_null_and_fit() {
    assert!(region(0, 16).is_null());
    assert!(!region(1, 0).is_null());
    assert!(region(4096, 16).fits());
    assert!(region(usize::MAX, 0).fits());
    assert!(!region(usize::MAX, 1).fits());
    assert!(!region(usize::MAX - 3, 4).fits());
    assert!(region(usize::MAX - 4, 4).fits());
}

#[test]
fn region_disjoint() {
    assert!(region(100, 10).disjoint(region(110, 10)));
    assert!(region(110, 10).disjoint(region(100, 10)));
    assert!(!region(100, 10).disjoint(region(109, 10)));
    assert!(!region(109, 10).disjoint(region(100, 10)));
    assert!(!region(100, 10).disjoint(region(100, 10)));
    assert!(!region(100, 10).disjoint(region(102, 2)));
    assert!(region(100, 10).disjoint(region(105, 0)));
    assert!(region(100, 0).disjoint(region(100, 10)));
    assert!(!region(usize::MAX - 1, 8).disjoint(region(usize::MAX, 2)));
}

#[test]
fn wrap_bytes_refuses_null() {
    assert_eq!(wrap_bytes(0, 16), Err(WebPSimpleError));
    assert_eq!(wrap_bytes(0, 0), Err(WebPSimpleError));
}

#[test]
fn wrap_bytes_keeps_address_and_length() {
    let b: WebpBox = wrap_bytes(4096, 16).unwrap();
    assert_eq!(b.len(), 16);
    assert_eq!(b.region(), region(4096, 16));
    assert_eq!(WebpBox::into_raw(b), region(4096, 16));
}

#[test]
fn box_from_raw_into_raw_round_trip() {
    let b = WebpBox::from_raw(region(8192, 3));
    assert_eq!(WebpBox::into_raw(b), region(8192, 3));
    let again = WebpBox::from_raw(WebpBox::into_raw(WebpBox::from_raw(region(24, 7))));
    assert_eq!(again.region(), region(24, 7));
}

#[test]
fn box_releases_its_head() {
    let b = WebpBox::from_raw(region(8192, 3));
    assert_eq!(b.release(), 8192);
}

#[test]
fn planes_checked() {
    let y = region(1000, 16);
    let u = region(1016, 4);
    let v = region(1020, 4);
    assert!(check_planes(y, u, v));
    assert!(!check_planes(region(0, 16), u, v));
    assert!(!check_planes(y, region(0, 4), v));
    assert!(!check_planes(y, u, region(0, 4)));
    assert!(!check_planes(y, region(1015, 4), v));
    assert!(!check_planes(y, u, region(1019, 4)));
    assert!(!check_planes(y, u, region(1008, 4)));
    assert!(!check_planes(y, region(900, 4), v));
    assert!(!check_planes(y, u, region(900, 4)));
    assert!(!check_planes(y, u, region(usize::MAX - 1, 4)));
    assert!(check_planes(y, v, u));
    assert!(check_planes(y, region(2000, 4), region(3000, 4)));
}

#[test]
fn yuv_box_refuses_invalid_planes() {
    assert_eq!(
        WebpYuvBox::try_from_raw_yuv(region(1000, 16), region(1008, 4), region(1020, 4)),
        Err(WebPSimpleError)
    );
    assert_eq!(
        WebpYuvBox::try_from_raw_yuv(region(0, 16), region(1016, 4), region(1020, 4)),
        Err(WebPSimpleError)
    );
}

#[test]
fn yuv_box_hands_out_its_planes() {
    let y = region(1000, 16);
    let u = region(1016, 4);
    let v = region(1020, 4);
    let b = WebpYuvBox::try_from_raw_yuv(y, u, v).unwrap();
    assert_eq!(b.y(), y);
    assert_eq!(b.u(), u);
    assert_eq!(b.v(), v);
    assert_eq!(b.yuv(), (y, u, v));
    let planes = b.yuv();
    assert!(planes.0.disjoint(planes.1));
    assert!(planes.0.disjoint(planes.2));
    assert!(planes.1.disjoint(planes.2));
    assert_eq!(b.into_raw_yuv(), (y, u, v));
}

#[test]
fn yuv_box_into_y_keeps_the_allocation() {
    let y = region(1000, 16);
    let u = region(1016, 4);
    let v = region(1020, 4);
    let whole = WebpYuvBox::from_raw_yuv(y, u, v);
    assert_eq!(whole.release(), 1000);
    let luma: WebpBox = WebpYuvBox::from_raw_yuv(y, u, v).into_y();
    assert_eq!(luma.region(), y);
    assert_eq!(luma.release(), 1000);
}

fn is_send<T: Send>() {}

fn is_sync<T: Sync>() {}

#[test]
fn handles_are_send_and_sync() {
    is_send::<WebpBox>();
    is_sync::<WebpBox>();
    is_send::<WebpYuvBox>();
    is_sync::<WebpYuvBox>();
    is_send::<WebPIDecoderBox>();
    is_sync::<WebPIDecoderBox>();
}
