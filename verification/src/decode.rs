//! The codec's enumerations, and what a whole-buffer decode call returned.
//!
//! A decode call of the codec returns a pointer, null on failure, and writes
//! the geometry of the image into signed 32-bit integers. The functions here
//! take those values and decide whether the call succeeded and how long each
//! region is that it handed out.

use crate::boxed::{planes_valid, wrap_bytes, RawBytes, WebpBox, WebpYuvBox};
use crate::error::WebPSimpleError;
use vstd::prelude::*;

verus! {

/// The layout of decoded samples.
///
/// The name gives the order of the bytes of a pixel in memory. A name that
/// ends in a capital `A` or begins with one has premultiplied colour
/// channels.
#[allow(non_camel_case_types)]
#[derive(Debug, Clone, Copy, PartialEq, Eq, Structural, PartialOrd, Ord, Hash)]
pub enum WEBP_CSP_MODE {
    MODE_RGB,
    MODE_RGBA,
    MODE_BGR,
    MODE_BGRA,
    MODE_ARGB,
    MODE_RGBA_4444,
    MODE_RGB_565,
    /// A variant of `MODE_RGBA` with premultiplied alpha
    MODE_rgbA,
    /// A variant of `MODE_BGRA` with premultiplied alpha
    MODE_bgrA,
    /// A variant of `MODE_ARGB` with premultiplied alpha
    MODE_Argb,
    /// A variant of `MODE_RGBA_4444` with premultiplied alpha
    MODE_rgbA_4444,
    MODE_YUV,
    MODE_YUVA,
}

/// The numbers of the thirteen layouts as `libwebp_sys` declares them: its
/// constants `MODE_RGB` to `MODE_YUVA`, in the order of the variants of
/// `WEBP_CSP_MODE`. Taken on trust: that crate declares them as the numbers
/// 0 to 12, in this order.
#[verifier::external_body]
fn mode_numbers() -> (numbers: [u32; 13])
    ensures
        forall|i: int| 0 <= i < 13 ==> numbers@[i] == i,
{
    [
        libwebp_sys::MODE_RGB, libwebp_sys::MODE_RGBA, libwebp_sys::MODE_BGR,
        libwebp_sys::MODE_BGRA, libwebp_sys::MODE_ARGB, libwebp_sys::MODE_RGBA_4444,
        libwebp_sys::MODE_RGB_565, libwebp_sys::MODE_rgbA, libwebp_sys::MODE_bgrA,
        libwebp_sys::MODE_Argb, libwebp_sys::MODE_rgbA_4444, libwebp_sys::MODE_YUV,
        libwebp_sys::MODE_YUVA,
    ]
}

impl WEBP_CSP_MODE {
    /// The number that the codec uses for this layout.
    pub open spec fn raw(self) -> u32 {
        match self {
            WEBP_CSP_MODE::MODE_RGB => 0,
            WEBP_CSP_MODE::MODE_RGBA => 1,
            WEBP_CSP_MODE::MODE_BGR => 2,
            WEBP_CSP_MODE::MODE_BGRA => 3,
            WEBP_CSP_MODE::MODE_ARGB => 4,
            WEBP_CSP_MODE::MODE_RGBA_4444 => 5,
            WEBP_CSP_MODE::MODE_RGB_565 => 6,
            WEBP_CSP_MODE::MODE_rgbA => 7,
            WEBP_CSP_MODE::MODE_bgrA => 8,
            WEBP_CSP_MODE::MODE_Argb => 9,
            WEBP_CSP_MODE::MODE_rgbA_4444 => 10,
            WEBP_CSP_MODE::MODE_YUV => 11,
            WEBP_CSP_MODE::MODE_YUVA => 12,
        }
    }

    /// The numbers that stand for a layout.
    pub open spec fn known(raw: u32) -> bool {
        raw <= 12
    }

    /// Colour channels are stored multiplied by alpha.
    pub open spec fn is_premultiplied(self) -> bool {
        self == WEBP_CSP_MODE::MODE_rgbA || self == WEBP_CSP_MODE::MODE_bgrA || self
            == WEBP_CSP_MODE::MODE_Argb || self == WEBP_CSP_MODE::MODE_rgbA_4444
    }

    /// The layout stores an alpha channel.
    pub open spec fn has_alpha(self) -> bool {
        self == WEBP_CSP_MODE::MODE_RGBA || self == WEBP_CSP_MODE::MODE_BGRA || self
            == WEBP_CSP_MODE::MODE_ARGB || self == WEBP_CSP_MODE::MODE_RGBA_4444 || self
            == WEBP_CSP_MODE::MODE_YUVA || self.is_premultiplied()
    }

    /// The layout is interleaved, not planar: its number is below that of the
    /// first planar layout.
    pub open spec fn is_rgb(self) -> bool {
        self.raw() < WEBP_CSP_MODE::MODE_YUV.raw()
    }

    /// The bytes that one pixel takes in an interleaved layout; a planar
    /// layout has no such number.
    pub open spec fn spec_pixel_size(self) -> Option<usize> {
        match self {
            WEBP_CSP_MODE::MODE_RGB | WEBP_CSP_MODE::MODE_BGR => Some(3),
            WEBP_CSP_MODE::MODE_RGBA
            | WEBP_CSP_MODE::MODE_BGRA
            | WEBP_CSP_MODE::MODE_ARGB
            | WEBP_CSP_MODE::MODE_rgbA
            | WEBP_CSP_MODE::MODE_bgrA
            | WEBP_CSP_MODE::MODE_Argb => Some(4),
            WEBP_CSP_MODE::MODE_RGBA_4444
            | WEBP_CSP_MODE::MODE_RGB_565
            | WEBP_CSP_MODE::MODE_rgbA_4444 => Some(2),
            WEBP_CSP_MODE::MODE_YUV | WEBP_CSP_MODE::MODE_YUVA => None,
        }
    }

    /// The layout that the codec's number `raw` stands for.
    pub fn from_raw(raw: u32) -> (mode: WEBP_CSP_MODE)
        requires
            WEBP_CSP_MODE::known(raw),
        ensures
            mode.raw() == raw,
    {
        let numbers = mode_numbers();
        if raw == numbers[0] {
            WEBP_CSP_MODE::MODE_RGB
        } else if raw == numbers[1] {
            WEBP_CSP_MODE::MODE_RGBA
        } else if raw == numbers[2] {
            WEBP_CSP_MODE::MODE_BGR
        } else if raw == numbers[3] {
            WEBP_CSP_MODE::MODE_BGRA
        } else if raw == numbers[4] {
            WEBP_CSP_MODE::MODE_ARGB
        } else if raw == numbers[5] {
            WEBP_CSP_MODE::MODE_RGBA_4444
        } else if raw == numbers[6] {
            WEBP_CSP_MODE::MODE_RGB_565
        } else if raw == numbers[7] {
            WEBP_CSP_MODE::MODE_rgbA
        } else if raw == numbers[8] {
            WEBP_CSP_MODE::MODE_bgrA
        } else if raw == numbers[9] {
            WEBP_CSP_MODE::MODE_Argb
        } else if raw == numbers[10] {
            WEBP_CSP_MODE::MODE_rgbA_4444
        } else if raw == numbers[11] {
            WEBP_CSP_MODE::MODE_YUV
        } else {
            WEBP_CSP_MODE::MODE_YUVA
        }
    }

    /// The layout that `raw` stands for, if it stands for one.
    pub fn try_from_raw(raw: u32) -> (mode: Option<WEBP_CSP_MODE>)
        ensures
            mode is Some <==> WEBP_CSP_MODE::known(raw),
            mode matches Some(m) ==> m.raw() == raw,
    {
        if raw <= mode_numbers()[12] {
            Some(WEBP_CSP_MODE::from_raw(raw))
        } else {
            None
        }
    }

    /// The number that the codec uses for this layout.
    pub fn into_raw(self) -> (raw: u32)
        ensures
            raw == self.raw(),
            WEBP_CSP_MODE::known(raw),
    {
        let numbers = mode_numbers();
        match self {
            WEBP_CSP_MODE::MODE_RGB => numbers[0],
            WEBP_CSP_MODE::MODE_RGBA => numbers[1],
            WEBP_CSP_MODE::MODE_BGR => numbers[2],
            WEBP_CSP_MODE::MODE_BGRA => numbers[3],
            WEBP_CSP_MODE::MODE_ARGB => numbers[4],
            WEBP_CSP_MODE::MODE_RGBA_4444 => numbers[5],
            WEBP_CSP_MODE::MODE_RGB_565 => numbers[6],
            WEBP_CSP_MODE::MODE_rgbA => numbers[7],
            WEBP_CSP_MODE::MODE_bgrA => numbers[8],
            WEBP_CSP_MODE::MODE_Argb => numbers[9],
            WEBP_CSP_MODE::MODE_rgbA_4444 => numbers[10],
            WEBP_CSP_MODE::MODE_YUV => numbers[11],
            WEBP_CSP_MODE::MODE_YUVA => numbers[12],
        }
    }

    /// The bytes that one pixel takes, for an interleaved layout.
    pub fn pixel_size(self) -> (size: Option<usize>)
        ensures
            size == self.spec_pixel_size(),
            size is Some <==> self.is_rgb(),
    {
        match self {
            WEBP_CSP_MODE::MODE_RGB | WEBP_CSP_MODE::MODE_BGR => Some(3),
            WEBP_CSP_MODE::MODE_RGBA
            | WEBP_CSP_MODE::MODE_BGRA
            | WEBP_CSP_MODE::MODE_ARGB
            | WEBP_CSP_MODE::MODE_rgbA
            | WEBP_CSP_MODE::MODE_bgrA
            | WEBP_CSP_MODE::MODE_Argb => Some(4),
            WEBP_CSP_MODE::MODE_RGBA_4444
            | WEBP_CSP_MODE::MODE_RGB_565
            | WEBP_CSP_MODE::MODE_rgbA_4444 => Some(2),
            WEBP_CSP_MODE::MODE_YUV | WEBP_CSP_MODE::MODE_YUVA => None,
        }
    }

    /// Two layouts with the same number are the same layout.
    pub proof fn raw_is_injective(a: WEBP_CSP_MODE, b: WEBP_CSP_MODE)
        requires
            a.raw() == b.raw(),
        ensures
            a == b,
    {
    }

    /// Premultiplied colour needs an alpha channel, and only interleaved
    /// layouts are premultiplied.
    pub proof fn premultiplied_is_rgb_with_alpha(self)
        requires
            self.is_premultiplied(),
        ensures
            self.has_alpha(),
            self.is_rgb(),
    {
    }
}

/// Whether the colour channels of `mode` are stored multiplied by alpha.
#[allow(non_snake_case)]
pub fn WebPIsPremultipliedMode(mode: WEBP_CSP_MODE) -> (b: bool)
    ensures
        b == mode.is_premultiplied(),
{
    match mode {
        WEBP_CSP_MODE::MODE_rgbA
        | WEBP_CSP_MODE::MODE_bgrA
        | WEBP_CSP_MODE::MODE_Argb
        | WEBP_CSP_MODE::MODE_rgbA_4444 => true,
        WEBP_CSP_MODE::MODE_RGB
        | WEBP_CSP_MODE::MODE_RGBA
        | WEBP_CSP_MODE::MODE_BGR
        | WEBP_CSP_MODE::MODE_BGRA
        | WEBP_CSP_MODE::MODE_ARGB
        | WEBP_CSP_MODE::MODE_RGBA_4444
        | WEBP_CSP_MODE::MODE_RGB_565
        | WEBP_CSP_MODE::MODE_YUV
        | WEBP_CSP_MODE::MODE_YUVA => false,
    }
}

/// Whether `mode` stores an alpha channel.
#[allow(non_snake_case)]
pub fn WebPIsAlphaMode(mode: WEBP_CSP_MODE) -> (b: bool)
    ensures
        b == mode.has_alpha(),
{
    match mode {
        WEBP_CSP_MODE::MODE_RGBA
        | WEBP_CSP_MODE::MODE_BGRA
        | WEBP_CSP_MODE::MODE_ARGB
        | WEBP_CSP_MODE::MODE_RGBA_4444
        | WEBP_CSP_MODE::MODE_rgbA
        | WEBP_CSP_MODE::MODE_bgrA
        | WEBP_CSP_MODE::MODE_Argb
        | WEBP_CSP_MODE::MODE_rgbA_4444
        | WEBP_CSP_MODE::MODE_YUVA => true,
        WEBP_CSP_MODE::MODE_RGB
        | WEBP_CSP_MODE::MODE_BGR
        | WEBP_CSP_MODE::MODE_RGB_565
        | WEBP_CSP_MODE::MODE_YUV => false,
    }
}

/// Whether `mode` is interleaved, not planar.
#[allow(non_snake_case)]
pub fn WebPIsRGBMode(mode: WEBP_CSP_MODE) -> (b: bool)
    ensures
        b == mode.is_rgb(),
{
    match mode {
        WEBP_CSP_MODE::MODE_RGB
        | WEBP_CSP_MODE::MODE_RGBA
        | WEBP_CSP_MODE::MODE_BGR
        | WEBP_CSP_MODE::MODE_BGRA
        | WEBP_CSP_MODE::MODE_ARGB
        | WEBP_CSP_MODE::MODE_RGBA_4444
        | WEBP_CSP_MODE::MODE_RGB_565
        | WEBP_CSP_MODE::MODE_rgbA
        | WEBP_CSP_MODE::MODE_bgrA
        | WEBP_CSP_MODE::MODE_Argb
        | WEBP_CSP_MODE::MODE_rgbA_4444 => true,
        WEBP_CSP_MODE::MODE_YUV | WEBP_CSP_MODE::MODE_YUVA => false,
    }
}

/// What the decoder says of its progress.
#[allow(non_camel_case_types)]
#[must_use]
#[derive(Debug, Clone, Copy, PartialEq, Eq, Structural, PartialOrd, Ord, Hash)]
pub enum VP8StatusCode {
    VP8_STATUS_OK,
    VP8_STATUS_OUT_OF_MEMORY,
    VP8_STATUS_INVALID_PARAM,
    VP8_STATUS_BITSTREAM_ERROR,
    VP8_STATUS_UNSUPPORTED_FEATURE,
    VP8_STATUS_SUSPENDED,
    VP8_STATUS_USER_ABORT,
    VP8_STATUS_NOT_ENOUGH_DATA,
}

/// The numbers of the eight statuses as `libwebp_sys` declares them: its
/// constants `VP8_STATUS_OK` to `VP8_STATUS_NOT_ENOUGH_DATA`, in the order of
/// the variants of `VP8StatusCode`. Taken on trust: that crate declares them
/// as the numbers 0 to 7, in this order.
#[verifier::external_body]
fn status_numbers() -> (numbers: [u32; 8])
    ensures
        forall|i: int| 0 <= i < 8 ==> numbers@[i] == i,
{
    [
        libwebp_sys::VP8_STATUS_OK, libwebp_sys::VP8_STATUS_OUT_OF_MEMORY,
        libwebp_sys::VP8_STATUS_INVALID_PARAM, libwebp_sys::VP8_STATUS_BITSTREAM_ERROR,
        libwebp_sys::VP8_STATUS_UNSUPPORTED_FEATURE, libwebp_sys::VP8_STATUS_SUSPENDED,
        libwebp_sys::VP8_STATUS_USER_ABORT, libwebp_sys::VP8_STATUS_NOT_ENOUGH_DATA,
    ]
}

impl VP8StatusCode {
    /// The number that the codec uses for this status.
    pub open spec fn raw(self) -> u32 {
        match self {
            VP8StatusCode::VP8_STATUS_OK => 0,
            VP8StatusCode::VP8_STATUS_OUT_OF_MEMORY => 1,
            VP8StatusCode::VP8_STATUS_INVALID_PARAM => 2,
            VP8StatusCode::VP8_STATUS_BITSTREAM_ERROR => 3,
            VP8StatusCode::VP8_STATUS_UNSUPPORTED_FEATURE => 4,
            VP8StatusCode::VP8_STATUS_SUSPENDED => 5,
            VP8StatusCode::VP8_STATUS_USER_ABORT => 6,
            VP8StatusCode::VP8_STATUS_NOT_ENOUGH_DATA => 7,
        }
    }

    /// The numbers that stand for a status.
    pub open spec fn known(raw: u32) -> bool {
        raw <= 7
    }

    /// The decoder waits for more input.
    pub open spec fn spec_needs_more(self) -> bool {
        self == VP8StatusCode::VP8_STATUS_SUSPENDED || self
            == VP8StatusCode::VP8_STATUS_NOT_ENOUGH_DATA
    }

    /// The decoder has given up: the status is neither success nor a wait
    /// for more input.
    pub open spec fn spec_is_failure(self) -> bool {
        self != VP8StatusCode::VP8_STATUS_OK && !self.spec_needs_more()
    }

    /// The status that the codec's number `raw` stands for.
    pub fn from_raw(raw: u32) -> (status: VP8StatusCode)
        requires
            VP8StatusCode::known(raw),
        ensures
            status.raw() == raw,
    {
        let numbers = status_numbers();
        if raw == numbers[0] {
            VP8StatusCode::VP8_STATUS_OK
        } else if raw == numbers[1] {
            VP8StatusCode::VP8_STATUS_OUT_OF_MEMORY
        } else if raw == numbers[2] {
            VP8StatusCode::VP8_STATUS_INVALID_PARAM
        } else if raw == numbers[3] {
            VP8StatusCode::VP8_STATUS_BITSTREAM_ERROR
        } else if raw == numbers[4] {
            VP8StatusCode::VP8_STATUS_UNSUPPORTED_FEATURE
        } else if raw == numbers[5] {
            VP8StatusCode::VP8_STATUS_SUSPENDED
        } else if raw == numbers[6] {
            VP8StatusCode::VP8_STATUS_USER_ABORT
        } else {
            VP8StatusCode::VP8_STATUS_NOT_ENOUGH_DATA
        }
    }

    /// The status that `raw` stands for, if it stands for one.
    pub fn try_from_raw(raw: u32) -> (status: Option<VP8StatusCode>)
        ensures
            status is Some <==> VP8StatusCode::known(raw),
            status matches Some(s) ==> s.raw() == raw,
    {
        if raw <= status_numbers()[7] {
            Some(VP8StatusCode::from_raw(raw))
        } else {
            None
        }
    }

    /// The number that the codec uses for this status.
    pub fn into_raw(self) -> (raw: u32)
        ensures
            raw == self.raw(),
            VP8StatusCode::known(raw),
    {
        let numbers = status_numbers();
        match self {
            VP8StatusCode::VP8_STATUS_OK => numbers[0],
            VP8StatusCode::VP8_STATUS_OUT_OF_MEMORY => numbers[1],
            VP8StatusCode::VP8_STATUS_INVALID_PARAM => numbers[2],
            VP8StatusCode::VP8_STATUS_BITSTREAM_ERROR => numbers[3],
            VP8StatusCode::VP8_STATUS_UNSUPPORTED_FEATURE => numbers[4],
            VP8StatusCode::VP8_STATUS_SUSPENDED => numbers[5],
            VP8StatusCode::VP8_STATUS_USER_ABORT => numbers[6],
            VP8StatusCode::VP8_STATUS_NOT_ENOUGH_DATA => numbers[7],
        }
    }

    /// Whether the decoder waits for more input.
    #[verifier::when_used_as_spec(spec_needs_more)]
    pub fn needs_more(self) -> (b: bool)
        ensures
            b == self.spec_needs_more(),
    {
        match self {
            VP8StatusCode::VP8_STATUS_SUSPENDED | VP8StatusCode::VP8_STATUS_NOT_ENOUGH_DATA => true,
            _ => false,
        }
    }

    /// Whether the decoder has given up.
    #[verifier::when_used_as_spec(spec_is_failure)]
    pub fn is_failure(self) -> (b: bool)
        ensures
            b == self.spec_is_failure(),
    {
        match self {
            VP8StatusCode::VP8_STATUS_OK
            | VP8StatusCode::VP8_STATUS_SUSPENDED
            | VP8StatusCode::VP8_STATUS_NOT_ENOUGH_DATA => false,
            _ => true,
        }
    }

    /// Two statuses with the same number are the same status.
    pub proof fn raw_is_injective(a: VP8StatusCode, b: VP8StatusCode)
        requires
            a.raw() == b.raw(),
        ensures
            a == b,
    {
    }
}

/// A width, height or stride that the codec reported: it counts if it is not
/// negative.
pub open spec fn spec_dimension(v: i32) -> Option<u32> {
    if v >= 0 {
        Some(v as u32)
    } else {
        None
    }
}

/// Reads a width, height or stride that the codec reported.
#[verifier::when_used_as_spec(spec_dimension)]
pub fn dimension(v: i32) -> (r: Option<u32>)
    ensures
        r == spec_dimension(v),
{
    if v >= 0 {
        Some(v as u32)
    } else {
        None
    }
}

/// A width, height or stride to hand to the codec: it can be handed over if
/// it fits the codec's signed 32-bit integer.
pub open spec fn spec_native_int(v: u32) -> Option<i32> {
    if v <= i32::MAX {
        Some(v as i32)
    } else {
        None
    }
}

/// Converts a width, height or stride for the codec, if it fits.
#[verifier::when_used_as_spec(spec_native_int)]
pub fn native_int(v: u32) -> (r: Option<i32>)
    ensures
        r == spec_native_int(v),
{
    if v <= 0x7fff_ffff {
        Some(v as i32)
    } else {
        None
    }
}

/// What can be handed to the codec comes back from it unchanged, and what
/// the codec reported can be handed back to it.
pub proof fn native_int_inverts_dimension(v: u32, n: i32)
    ensures
        spec_native_int(v) matches Some(m) ==> spec_dimension(m) == Some(v),
        spec_dimension(n) matches Some(d) ==> spec_native_int(d) == Some(n),
{
}

/// Half of `x`, rounded up: the rows or columns of a chroma plane for `x`
/// rows or columns of luma.
pub open spec fn spec_half_ceil(x: u32) -> u32 {
    ((x + 1) / 2) as u32
}

/// Half of `x`, rounded up.
#[verifier::when_used_as_spec(spec_half_ceil)]
pub fn half_ceil(x: u32) -> (r: u32)
    ensures
        r == spec_half_ceil(x),
        2 * r == x || 2 * r == x + 1,
{
    x / 2 + x % 2
}

/// The bytes of a plane of `rows` rows that lie `stride` bytes apart, if the
/// machine can address that many.
pub open spec fn spec_plane_len(stride: u32, rows: u32) -> Option<usize> {
    if stride * rows <= usize::MAX {
        Some((stride * rows) as usize)
    } else {
        None
    }
}

/// The bytes of a plane of `rows` rows that lie `stride` bytes apart.
#[verifier::when_used_as_spec(spec_plane_len)]
pub fn plane_len(stride: u32, rows: u32) -> (r: Option<usize>)
    ensures
        r == spec_plane_len(stride, rows),
{
    (stride as usize).checked_mul(rows as usize)
}

/// On a machine with addresses of 64 bits every plane has a length.
pub proof fn plane_len_fits_64_bits(stride: u32, rows: u32)
    requires
        usize::MAX >= u64::MAX,
    ensures
        spec_plane_len(stride, rows) is Some,
{
    assert(stride * rows <= u64::MAX) by (nonlinear_arith)
        requires
            0 <= stride <= u32::MAX,
            0 <= rows <= u32::MAX,
    ;
}

/// The bytes of an interleaved image without padding between rows: width
/// times height times the bytes of one pixel. There is no such number for a
/// planar layout, a negative width or height, or more bytes than the machine
/// can address.
pub open spec fn spec_pixels_len(mode: WEBP_CSP_MODE, width: i32, height: i32) -> Option<usize> {
    match mode.spec_pixel_size() {
        Some(size) => if width >= 0 && height >= 0 && width * height * size <= usize::MAX {
            Some((width * height * size) as usize)
        } else {
            None
        },
        None => None,
    }
}

/// The bytes of an interleaved image of `width` by `height` pixels.
#[verifier::when_used_as_spec(spec_pixels_len)]
pub fn pixels_len(mode: WEBP_CSP_MODE, width: i32, height: i32) -> (r: Option<usize>)
    ensures
        r == spec_pixels_len(mode, width, height),
{
    let size: usize = match mode.pixel_size() {
        Some(size) => size,
        None => { return None; },
    };
    if width < 0 || height < 0 {
        return None;
    }
    match (width as usize).checked_mul(height as usize) {
        Some(pixels) => pixels.checked_mul(size),
        None => {
            assert(width * height * size > usize::MAX) by (nonlinear_arith)
                requires
                    width * height > usize::MAX,
                    size >= 1,
            ;
            None
        },
    }
}

/// On a machine with addresses of 64 bits every interleaved image whose
/// width and height are not negative has a length.
pub proof fn pixels_len_fits_64_bits(mode: WEBP_CSP_MODE, width: i32, height: i32)
    requires
        usize::MAX >= u64::MAX,
        mode.is_rgb(),
        width >= 0,
        height >= 0,
    ensures
        spec_pixels_len(mode, width, height) is Some,
{
    let size = mode.spec_pixel_size()->Some_0;
    assert(width * height * size <= u64::MAX) by (nonlinear_arith)
        requires
            0 <= width <= i32::MAX,
            0 <= height <= i32::MAX,
            0 <= size <= 4,
    ;
}

/// What a header inspection returned: `status` is zero if the header is
/// malformed; otherwise `width` and `height` are those of the image.
pub open spec fn spec_header_info(status: i32, width: i32, height: i32) -> Result<
    (u32, u32),
    WebPSimpleError,
> {
    match (spec_dimension(width), spec_dimension(height)) {
        (Some(w), Some(h)) if status != 0 => Ok((w, h)),
        _ => Err(WebPSimpleError),
    }
}

/// Reads the result of a header inspection. A zero status is a failure, and
/// so is a geometry that no image has.
#[verifier::when_used_as_spec(spec_header_info)]
pub fn header_info(status: i32, width: i32, height: i32) -> (r: Result<
    (u32, u32),
    WebPSimpleError,
>)
    ensures
        r == spec_header_info(status, width, height),
{
    if status != 0 && width >= 0 && height >= 0 {
        Ok((width as u32, height as u32))
    } else {
        Err(WebPSimpleError)
    }
}

/// Reads the result of decoding a whole image into a buffer that the codec
/// allocated, in the interleaved layout `mode`.
///
/// The call failed if `ptr` is null. Otherwise the buffer at `ptr` holds
/// `width` times `height` pixels without padding, and the handle that comes
/// out owns it. A result that cannot be a buffer of `mode` is a failure too:
/// nothing is handed out with a length that was not computed.
pub fn decoded_pixels(mode: WEBP_CSP_MODE, ptr: usize, width: i32, height: i32) -> (r: Result<
    (u32, u32, WebpBox),
    WebPSimpleError,
>)
    ensures
        r is Ok <==> ptr != 0 && spec_pixels_len(mode, width, height) is Some,
        r matches Ok((w, h, buf)) ==> {
            &&& spec_dimension(width) == Some(w)
            &&& spec_dimension(height) == Some(h)
            &&& buf.wf()
            &&& buf@.addr == ptr
            &&& Some(buf@.len) == spec_pixels_len(mode, width, height)
            &&& mode.spec_pixel_size() matches Some(size) && buf@.len == w * h * size
        },
{
    if ptr == 0 {
        return Err(WebPSimpleError);
    }
    match pixels_len(mode, width, height) {
        Some(len) => {
            let buf = wrap_bytes(ptr, len)?;
            Ok((width as u32, height as u32, buf))
        },
        None => Err(WebPSimpleError),
    }
}

/// The three planes that a successful three-plane decode handed out: `height`
/// rows of luma that lie `stride` bytes apart, and two chroma planes of half
/// as many rows, rounded up, that lie `uv_stride` bytes apart.
pub open spec fn spec_yuv_planes(
    y: usize,
    u: usize,
    v: usize,
    height: i32,
    stride: i32,
    uv_stride: i32,
) -> Option<(RawBytes, RawBytes, RawBytes)> {
    if height >= 0 && stride >= 0 && uv_stride >= 0 {
        match (
            spec_plane_len(stride as u32, height as u32),
            spec_plane_len(uv_stride as u32, spec_half_ceil(height as u32)),
        ) {
            (Some(y_len), Some(uv_len)) => Some(
                (
                    RawBytes { addr: y, len: y_len },
                    RawBytes { addr: u, len: uv_len },
                    RawBytes { addr: v, len: uv_len },
                ),
            ),
            _ => None,
        }
    } else {
        None
    }
}

/// The three planes of an image of `height` rows, at the addresses and with
/// the strides that the codec reported.
#[verifier::when_used_as_spec(spec_yuv_planes)]
pub fn yuv_planes(y: usize, u: usize, v: usize, height: i32, stride: i32, uv_stride: i32) -> (r:
    Option<(RawBytes, RawBytes, RawBytes)>)
    ensures
        r == spec_yuv_planes(y, u, v, height, stride, uv_stride),
{
    if height < 0 || stride < 0 || uv_stride < 0 {
        return None;
    }
    let y_len = plane_len(stride as u32, height as u32);
    let uv_len = plane_len(uv_stride as u32, half_ceil(height as u32));
    match (y_len, uv_len) {
        (Some(y_len), Some(uv_len)) => Some(
            (
                RawBytes { addr: y, len: y_len },
                RawBytes { addr: u, len: uv_len },
                RawBytes { addr: v, len: uv_len },
            ),
        ),
        _ => None,
    }
}

/// Reads the result of decoding a whole image into three planes that the
/// codec allocated in one piece.
///
/// The call failed if `y` is null. Otherwise the handle that comes out owns
/// the three planes, and the luma plane is `stride` times `height` bytes
/// long, each chroma plane `uv_stride` times half the height, rounded up. A
/// result whose planes are not valid planes is a failure too.
pub fn decoded_yuv(
    y: usize,
    u: usize,
    v: usize,
    width: i32,
    height: i32,
    stride: i32,
    uv_stride: i32,
) -> (r: Result<(u32, u32, u32, u32, WebpYuvBox), WebPSimpleError>)
    ensures
        r is Ok <==> width >= 0 && (spec_yuv_planes(y, u, v, height, stride, uv_stride) matches Some(
            p,
        ) && planes_valid(p.0, p.1, p.2)),
        r matches Ok((w, h, s, uv_s, buf)) ==> {
            &&& spec_dimension(width) == Some(w)
            &&& spec_dimension(height) == Some(h)
            &&& spec_dimension(stride) == Some(s)
            &&& spec_dimension(uv_stride) == Some(uv_s)
            &&& buf.wf()
            &&& Some(buf@) == spec_yuv_planes(y, u, v, height, stride, uv_stride)
            &&& buf@.0.addr == y && buf@.1.addr == u && buf@.2.addr == v
            &&& buf@.0.len == s * h
            &&& buf@.1.len == uv_s * ((h + 1) / 2)
            &&& buf@.2.len == uv_s * ((h + 1) / 2)
        },
{
    if width < 0 {
        return Err(WebPSimpleError);
    }
    match yuv_planes(y, u, v, height, stride, uv_stride) {
        Some((py, pu, pv)) => {
            let buf = WebpYuvBox::try_from_raw_yuv(py, pu, pv)?;
            Ok((width as u32, height as u32, stride as u32, uv_stride as u32, buf))
        },
        None => Err(WebPSimpleError),
    }
}

/// What decoding into buffers of the caller returned: the codec returns null
/// if the data is malformed or a buffer too small, and does not say which.
pub open spec fn spec_decoded_into(ptr: usize) -> Result<(), WebPSimpleError> {
    if ptr != 0 {
        Ok(())
    } else {
        Err(WebPSimpleError)
    }
}

/// Reads the result of decoding into buffers of the caller. Nothing changes
/// hands: the buffers were the caller's and stay so.
#[verifier::when_used_as_spec(spec_decoded_into)]
pub fn decoded_into(ptr: usize) -> (r: Result<(), WebPSimpleError>)
    ensures
        r == spec_decoded_into(ptr),
{
    if ptr != 0 {
        Ok(())
    } else {
        Err(WebPSimpleError)
    }
}

/// A header inspection and a decode to which the codec reported the same
/// width and height report the same width and height: `w` and `h` are what
/// the decode reported, and the header inspection did not fail.
pub proof fn header_and_decode_agree(status: i32, width: i32, height: i32, w: u32, h: u32)
    requires
        spec_header_info(status, width, height) is Ok,
        spec_dimension(width) == Some(w),
        spec_dimension(height) == Some(h),
    ensures
        spec_header_info(status, width, height) == Ok::<(u32, u32), WebPSimpleError>((w, h)),
{
}

} // verus!
