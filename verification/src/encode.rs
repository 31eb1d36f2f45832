//! What is checked before an image is handed to the encoder, and what the
//! encoder returned.

use crate::boxed::{wrap_bytes, RawBytes, WebpBox};
use crate::decode::{native_int, spec_native_int, spec_pixels_len, WEBP_CSP_MODE};
use crate::error::WebPSimpleError;
use vstd::prelude::*;

verus! {

/// A buffer of `len` bytes can be encoded as an image of `width` by `height`
/// pixels of `pixelwidth` bytes each: width, height and stride fit the
/// codec's signed 32-bit integers, and the buffer holds exactly the pixels,
/// without padding.
pub open spec fn size_matches(len: usize, width: u32, height: u32, stride: u32, pixelwidth: usize)
    -> bool {
    &&& spec_native_int(width) is Some
    &&& spec_native_int(height) is Some
    &&& spec_native_int(stride) is Some
    &&& len == width * height * pixelwidth
}

/// A number that divides into `pixelwidth`-sized pixels and those into rows
/// of `width` is `width` times the number of rows times `pixelwidth`, and
/// only such a number divides so.
proof fn divides_into_rows(len: int, width: int, height: int, pixelwidth: int)
    requires
        len >= 0,
        width > 0,
        height >= 0,
        pixelwidth > 0,
    ensures
        (len % pixelwidth == 0 && (len / pixelwidth) % width == 0 && (len / pixelwidth) / width
            == height) <==> len == width * height * pixelwidth,
{
    let pixels = len / pixelwidth;
    assert(len == pixelwidth * pixels + len % pixelwidth) by (nonlinear_arith)
        requires
            pixelwidth > 0,
            pixels == len / pixelwidth,
    ;
    assert(pixels == width * (pixels / width) + pixels % width) by (nonlinear_arith)
        requires
            width > 0,
    ;
    if len == width * height * pixelwidth {
        assert(len % pixelwidth == 0 && len / pixelwidth == width * height) by (nonlinear_arith)
            requires
                len == width * height * pixelwidth,
                pixelwidth > 0,
        ;
        assert((width * height) % width == 0 && (width * height) / width == height)
            by (nonlinear_arith)
            requires
                width > 0,
        ;
    }
    if len % pixelwidth == 0 && pixels % width == 0 && pixels / width == height {
        assert(len == width * height * pixelwidth) by (nonlinear_arith)
            requires
                len == pixelwidth * pixels,
                pixels == width * height,
        ;
    }
}

/// Decides whether a buffer of `len` bytes can be encoded as an image of
/// `width` by `height` pixels of `pixelwidth` bytes each. The encoder must
/// not be called where this is false.
pub fn encode_size_check(len: usize, width: u32, height: u32, stride: u32, pixelwidth: usize) -> (ok:
    bool)
    ensures
        ok == size_matches(len, width, height, stride, pixelwidth),
{
    if native_int(width).is_none() || native_int(height).is_none() || native_int(stride).is_none() {
        return false;
    }
    let width = width as usize;
    let height = height as usize;
    if width == 0 || pixelwidth == 0 {
        assert(width * height * pixelwidth == 0) by (nonlinear_arith)
            requires
                width == 0 || pixelwidth == 0,
        ;
        len == 0
    } else {
        proof {
            divides_into_rows(len as int, width as int, height as int, pixelwidth as int);
        }
        len % pixelwidth == 0 && len / pixelwidth % width == 0 && len / pixelwidth / width
            == height
    }
}

/// The layouts that the encoder takes: red, green and blue in either order,
/// without alpha or with alpha behind them.
pub open spec fn spec_encodes(mode: WEBP_CSP_MODE) -> bool {
    mode == WEBP_CSP_MODE::MODE_RGB || mode == WEBP_CSP_MODE::MODE_BGR || mode
        == WEBP_CSP_MODE::MODE_RGBA || mode == WEBP_CSP_MODE::MODE_BGRA
}

/// Whether the encoder takes the layout `mode`.
#[verifier::when_used_as_spec(spec_encodes)]
pub fn encodes(mode: WEBP_CSP_MODE) -> (b: bool)
    ensures
        b == spec_encodes(mode),
        b ==> mode.is_rgb() && !mode.is_premultiplied(),
{
    match mode {
        WEBP_CSP_MODE::MODE_RGB
        | WEBP_CSP_MODE::MODE_BGR
        | WEBP_CSP_MODE::MODE_RGBA
        | WEBP_CSP_MODE::MODE_BGRA => true,
        _ => false,
    }
}

/// The width, height and stride to hand to the encoder for a buffer of `len`
/// bytes in the layout `mode`, if the buffer can be encoded: the encoder
/// takes the layout, and the buffer is as long as its pixels take.
pub open spec fn spec_encode_geometry(
    mode: WEBP_CSP_MODE,
    len: usize,
    width: u32,
    height: u32,
    stride: u32,
) -> Option<(i32, i32, i32)> {
    match mode.spec_pixel_size() {
        Some(size) => if spec_encodes(mode) && size_matches(len, width, height, stride, size) {
            Some((width as i32, height as i32, stride as i32))
        } else {
            None
        },
        None => None,
    }
}

/// Checks a buffer before it is encoded, and converts its geometry for the
/// encoder. The encoder must not be called where nothing comes out.
#[verifier::when_used_as_spec(spec_encode_geometry)]
pub fn encode_geometry(mode: WEBP_CSP_MODE, len: usize, width: u32, height: u32, stride: u32) -> (r:
    Option<(i32, i32, i32)>)
    ensures
        r == spec_encode_geometry(mode, len, width, height, stride),
        r matches Some((w, h, s)) ==> w == width && h == height && s == stride,
{
    if !encodes(mode) {
        return None;
    }
    let size: usize = match mode.pixel_size() {
        Some(size) => size,
        None => { return None; },
    };
    if !encode_size_check(len, width, height, stride, size) {
        return None;
    }
    match (native_int(width), native_int(height), native_int(stride)) {
        (Some(w), Some(h), Some(s)) => Some((w, h, s)),
        _ => None,
    }
}

/// Reads the result of an encode call: `size` is the number of bytes that
/// the encoder wrote, zero if it failed, and `output` is where it wrote
/// them. The handle that comes out owns those bytes.
pub fn encoded_bytes(size: usize, output: usize) -> (r: Result<WebpBox, WebPSimpleError>)
    ensures
        r is Ok <==> size != 0 && output != 0,
        r matches Ok(buf) ==> buf.wf() && buf@ == (RawBytes { addr: output, len: size }),
{
    if size != 0 {
        wrap_bytes(output, size)
    } else {
        Err(WebPSimpleError)
    }
}

/// An image that is decoded in the layout and with the geometry that was
/// handed to the encoder comes back in a buffer as long as the one that was
/// encoded.
pub proof fn decoded_length_is_encoded_length(
    mode: WEBP_CSP_MODE,
    len: usize,
    width: u32,
    height: u32,
    stride: u32,
)
    ensures
        spec_encode_geometry(mode, len, width, height, stride) matches Some(geometry)
            ==> spec_pixels_len(mode, geometry.0, geometry.1) == Some(len),
{
}

} // verus!
