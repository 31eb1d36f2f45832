//! Incremental decoding: the phases of a decoder that is fed its input in
//! pieces, and the rows it has finished so far.
//!
//! The decoder object itself belongs to the codec. After each feed the codec
//! reports a status; the phase of the decoder follows from the statuses
//! reported so far. At any time the codec can be asked for the rows that are
//! complete; the functions here compute how many bytes of each plane those
//! rows cover.

use crate::boxed::RawBytes;
use crate::decode::{half_ceil, plane_len, spec_half_ceil, spec_plane_len, VP8StatusCode};
use crate::error::WebPSimpleError;
use vstd::prelude::*;

verus! {

/// Where an incremental decoder stands.
#[derive(Debug, Clone, Copy, PartialEq, Eq, Structural, Hash)]
pub enum WebPIDecoderPhase {
    /// Nothing has been fed yet.
    Created,
    /// Some input has been fed, and the decoder waits for more.
    Suspended,
    /// The image is complete. Nothing that is fed later changes that.
    Done,
    /// The decoder gave up with this status. Nothing that is fed later
    /// changes that.
    Failed(VP8StatusCode),
}

impl WebPIDecoderPhase {
    /// A failed decoder failed with a status that is a failure.
    pub open spec fn wf(self) -> bool {
        self matches WebPIDecoderPhase::Failed(status) ==> status.spec_is_failure()
    }

    /// The decoder takes no more input.
    pub open spec fn spec_is_terminal(self) -> bool {
        self is Done || self is Failed
    }

    /// The phase after a feed for which the codec reported `status`.
    pub open spec fn spec_after_append(self, status: VP8StatusCode) -> WebPIDecoderPhase {
        if self.spec_is_terminal() {
            self
        } else if status == VP8StatusCode::VP8_STATUS_OK {
            WebPIDecoderPhase::Done
        } else if status.spec_needs_more() {
            WebPIDecoderPhase::Suspended
        } else {
            WebPIDecoderPhase::Failed(status)
        }
    }

    /// The phase after one feed for each status of `statuses`, in order.
    pub open spec fn after_all(self, statuses: Seq<VP8StatusCode>) -> WebPIDecoderPhase
        decreases statuses.len(),
    {
        if statuses.len() == 0 {
            self
        } else {
            self.after_all(statuses.drop_last()).spec_after_append(statuses.last())
        }
    }

    /// The phase of a decoder that was just created.
    pub fn new() -> (phase: WebPIDecoderPhase)
        ensures
            phase == WebPIDecoderPhase::Created,
    {
        WebPIDecoderPhase::Created
    }

    /// Whether the decoder takes no more input.
    #[verifier::when_used_as_spec(spec_is_terminal)]
    pub fn is_terminal(self) -> (b: bool)
        ensures
            b == self.spec_is_terminal(),
    {
        match self {
            WebPIDecoderPhase::Done | WebPIDecoderPhase::Failed(_) => true,
            WebPIDecoderPhase::Created | WebPIDecoderPhase::Suspended => false,
        }
    }

    /// Whether the codec can be asked for finished rows: after the first
    /// feed, not before.
    pub fn can_query(self) -> (b: bool)
        ensures
            b == !(self is Created),
    {
        match self {
            WebPIDecoderPhase::Created => false,
            _ => true,
        }
    }

    /// The phase after a feed for which the codec reported `status`.
    #[verifier::when_used_as_spec(spec_after_append)]
    pub fn after_append(self, status: VP8StatusCode) -> (next: WebPIDecoderPhase)
        ensures
            next == self.spec_after_append(status),
            self.wf() ==> next.wf(),
            !(next is Created),
    {
        if self.is_terminal() {
            self
        } else if status.needs_more() {
            WebPIDecoderPhase::Suspended
        } else if status.is_failure() {
            WebPIDecoderPhase::Failed(status)
        } else {
            WebPIDecoderPhase::Done
        }
    }

    /// Feeding keeps a phase well formed.
    pub proof fn after_all_keeps_wf(self, statuses: Seq<VP8StatusCode>)
        requires
            self.wf(),
        ensures
            self.after_all(statuses).wf(),
        decreases statuses.len(),
    {
        if statuses.len() > 0 {
            self.after_all_keeps_wf(statuses.drop_last());
        }
    }

    /// A decoder that is done or has failed stays as it is, whatever is fed.
    pub proof fn terminal_is_final(self, statuses: Seq<VP8StatusCode>)
        requires
            self.spec_is_terminal(),
        ensures
            self.after_all(statuses) == self,
        decreases statuses.len(),
    {
        if statuses.len() > 0 {
            self.terminal_is_final(statuses.drop_last());
        }
    }

    /// While every feed asks for more, a decoder that takes input is
    /// suspended after the first feed.
    pub proof fn waiting_stays_suspended(self, statuses: Seq<VP8StatusCode>)
        requires
            !self.spec_is_terminal(),
            statuses.len() > 0,
            forall|j: int| 0 <= j < statuses.len() ==> (#[trigger] statuses[j]).spec_needs_more(),
        ensures
            self.after_all(statuses) == WebPIDecoderPhase::Suspended,
        decreases statuses.len(),
    {
        let front = statuses.drop_last();
        if front.len() > 0 {
            assert forall|j: int| 0 <= j < front.len() implies (#[trigger] front[j]).spec_needs_more() by {
                assert(front[j] == statuses[j]);
            }
            self.waiting_stays_suspended(front);
        } else {
            assert(self.after_all(front) == self);
        }
        assert(statuses[statuses.len() - 1].spec_needs_more());
    }

    /// The first status that does not ask for more decides: the decoder is
    /// done if that status is success, and has failed with that status if
    /// not. What is fed after it changes nothing.
    pub proof fn first_answer_decides(self, statuses: Seq<VP8StatusCode>, i: int)
        requires
            !self.spec_is_terminal(),
            0 <= i < statuses.len(),
            forall|j: int| 0 <= j < i ==> (#[trigger] statuses[j]).spec_needs_more(),
            !statuses[i].spec_needs_more(),
        ensures
            self.after_all(statuses) == (if statuses[i] == VP8StatusCode::VP8_STATUS_OK {
                WebPIDecoderPhase::Done
            } else {
                WebPIDecoderPhase::Failed(statuses[i])
            }),
        decreases statuses.len(),
    {
        let front = statuses.drop_last();
        if i == statuses.len() - 1 {
            if front.len() > 0 {
                assert forall|j: int| 0 <= j < front.len() implies (#[trigger] front[j]).spec_needs_more() by {
                    assert(front[j] == statuses[j]);
                }
                self.waiting_stays_suspended(front);
            } else {
                assert(self.after_all(front) == self);
            }
        } else {
            assert(front[i] == statuses[i]);
            assert forall|j: int| 0 <= j < i implies (#[trigger] front[j]).spec_needs_more() by {
                assert(front[j] == statuses[j]);
            }
            self.first_answer_decides(front, i);
        }
    }
}

/// The owner of a decoder object that the codec created.
///
/// The object lies at one address from its creation to its end: the handle
/// can move, the object cannot. The handle also keeps the phase that follows
/// from the statuses it was told of.
#[derive(Debug, PartialEq, Eq)]
pub struct WebPIDecoderBox {
    addr: usize,
    phase: WebPIDecoderPhase,
}

impl WebPIDecoderBox {
    /// The address of the decoder object.
    pub closed spec fn addr(&self) -> usize {
        self.addr
    }

    /// The phase of the decoder object.
    pub closed spec fn spec_phase(&self) -> WebPIDecoderPhase {
        self.phase
    }

    /// A handle never holds the null pointer, and its phase is well formed.
    pub open spec fn wf(&self) -> bool {
        self.addr() != 0 && self.spec_phase().wf()
    }

    /// Takes ownership of the decoder object at `addr`, to which nothing has
    /// been fed.
    pub fn from_raw(addr: usize) -> (b: WebPIDecoderBox)
        requires
            addr != 0,
        ensures
            b.wf(),
            b.addr() == addr,
            b.spec_phase() == WebPIDecoderPhase::Created,
    {
        WebPIDecoderBox { addr, phase: WebPIDecoderPhase::Created }
    }

    /// Takes ownership of what a creation call returned, unless it is null:
    /// then the codec had no memory for a decoder.
    pub fn try_from_raw(addr: usize) -> (r: Option<WebPIDecoderBox>)
        ensures
            r is Some <==> addr != 0,
            r matches Some(b) ==> b.wf() && b.addr() == addr && b.spec_phase()
                == WebPIDecoderPhase::Created,
    {
        if addr != 0 {
            Some(WebPIDecoderBox::from_raw(addr))
        } else {
            None
        }
    }

    /// Gives the decoder object up without destroying it.
    pub fn into_raw(self) -> (addr: usize)
        ensures
            addr == self.addr(),
    {
        self.addr
    }

    /// The address of the decoder object, for a call of the codec.
    pub fn as_ptr(&self) -> (addr: usize)
        ensures
            addr == self.addr(),
    {
        self.addr
    }

    /// The phase of the decoder object.
    #[verifier::when_used_as_spec(spec_phase)]
    pub fn phase(&self) -> (phase: WebPIDecoderPhase)
        ensures
            phase == self.spec_phase(),
    {
        self.phase
    }

    /// Takes note of a feed for which the codec reported `status`. The
    /// decoder object stays where it is.
    pub fn appended(&mut self, status: VP8StatusCode)
        ensures
            final(self).addr() == old(self).addr(),
            final(self).spec_phase() == old(self).spec_phase().spec_after_append(status),
            old(self).wf() ==> final(self).wf(),
    {
        self.phase = self.phase.after_append(status);
    }

    /// Ends the handle and names the address to hand to the codec's routine
    /// that destroys a decoder.
    pub fn release(self) -> (addr: usize)
        requires
            self.wf(),
        ensures
            addr == self.addr(),
            addr != 0,
    {
        self.addr
    }
}

/// Whether a chunk of `len` bytes can be fed: the codec does not say what it
/// does with an empty one, so an empty chunk is not fed.
pub fn chunk_accepted(len: usize) -> (b: bool)
    ensures
        b == (len > 0),
{
    len != 0
}

/// The rows of an interleaved image that are complete.
///
/// `buf` covers the first `last_y` rows, which lie `stride` bytes apart: it
/// is `stride` times `last_y` bytes long, whatever the full height is.
#[derive(Debug, Clone, Copy, PartialEq, Eq)]
pub struct WebPIDecGetRGBResult {
    pub buf: RawBytes,
    pub last_y: u32,
    pub width: u32,
    pub height: u32,
    pub stride: u32,
}

/// What a query for the complete rows of an interleaved image returned.
///
/// `ptr` is null if no row is available yet. Otherwise the rows begin at
/// `ptr`.
pub open spec fn spec_partial_rgb(ptr: usize, last_y: i32, width: i32, height: i32, stride: i32)
    -> Result<WebPIDecGetRGBResult, WebPSimpleError> {
    if ptr != 0 && last_y >= 0 && width >= 0 && height >= 0 && stride >= 0 {
        match spec_plane_len(stride as u32, last_y as u32) {
            Some(len) => Ok(
                WebPIDecGetRGBResult {
                    buf: RawBytes { addr: ptr, len },
                    last_y: last_y as u32,
                    width: width as u32,
                    height: height as u32,
                    stride: stride as u32,
                },
            ),
            None => Err(WebPSimpleError),
        }
    } else {
        Err(WebPSimpleError)
    }
}

/// Reads the result of a query for the complete rows of an interleaved
/// image.
#[verifier::when_used_as_spec(spec_partial_rgb)]
pub fn partial_rgb(ptr: usize, last_y: i32, width: i32, height: i32, stride: i32) -> (r: Result<
    WebPIDecGetRGBResult,
    WebPSimpleError,
>)
    ensures
        r == spec_partial_rgb(ptr, last_y, width, height, stride),
        r matches Ok(rows) ==> !rows.buf.spec_is_null() && rows.buf.len == rows.stride
            * rows.last_y,
{
    if ptr == 0 || last_y < 0 || width < 0 || height < 0 || stride < 0 {
        return Err(WebPSimpleError);
    }
    match plane_len(stride as u32, last_y as u32) {
        Some(len) => Ok(
            WebPIDecGetRGBResult {
                buf: RawBytes { addr: ptr, len },
                last_y: last_y as u32,
                width: width as u32,
                height: height as u32,
                stride: stride as u32,
            },
        ),
        None => Err(WebPSimpleError),
    }
}

/// The rows of a planar image that are complete.
///
/// `luma` covers the first `last_y` rows of luma, `u` and `v` the chroma rows
/// that belong to them: half as many, rounded up. `a` is the alpha plane, if
/// the image has one, with as many rows as `luma`.
#[derive(Debug, Clone, Copy, PartialEq, Eq)]
pub struct WebPIDecGetYUVAResult {
    pub luma: RawBytes,
    pub last_y: u32,
    pub u: RawBytes,
    pub v: RawBytes,
    pub a: Option<RawBytes>,
    pub width: u32,
    pub height: u32,
    pub stride: u32,
    pub uv_stride: u32,
    pub a_stride: u32,
}

/// What the codec wrote when it was asked for the complete rows of a planar
/// image: the four plane pointers and the geometry.
#[derive(Debug, Clone, Copy, PartialEq, Eq)]
pub struct RawYUVA {
    pub luma: usize,
    pub u: usize,
    pub v: usize,
    pub a: usize,
    pub last_y: i32,
    pub width: i32,
    pub height: i32,
    pub stride: i32,
    pub uv_stride: i32,
    pub a_stride: i32,
}

impl RawYUVA {
    /// No number of the geometry is negative.
    pub open spec fn geometry_valid(self) -> bool {
        self.last_y >= 0 && self.width >= 0 && self.height >= 0 && self.stride >= 0
            && self.uv_stride >= 0 && self.a_stride >= 0
    }

    /// The alpha plane, for an image that has one.
    pub open spec fn alpha(self) -> Option<Option<RawBytes>> {
        if self.a == 0 {
            Some(None)
        } else {
            match spec_plane_len(self.a_stride as u32, self.last_y as u32) {
                Some(len) => Some(Some(RawBytes { addr: self.a, len })),
                None => None,
            }
        }
    }
}

/// What a query for the complete rows of a planar image returned.
///
/// `raw.luma` is null if no row is available yet. A null `raw.a` says that
/// the image has no alpha plane.
pub open spec fn spec_partial_yuva(raw: RawYUVA) -> Result<WebPIDecGetYUVAResult, WebPSimpleError> {
    if raw.luma != 0 && raw.u != 0 && raw.v != 0 && raw.geometry_valid() {
        match (
            spec_plane_len(raw.stride as u32, raw.last_y as u32),
            spec_plane_len(raw.uv_stride as u32, spec_half_ceil(raw.last_y as u32)),
            raw.alpha(),
        ) {
            (Some(luma_len), Some(uv_len), Some(a)) => Ok(
                WebPIDecGetYUVAResult {
                    luma: RawBytes { addr: raw.luma, len: luma_len },
                    last_y: raw.last_y as u32,
                    u: RawBytes { addr: raw.u, len: uv_len },
                    v: RawBytes { addr: raw.v, len: uv_len },
                    a,
                    width: raw.width as u32,
                    height: raw.height as u32,
                    stride: raw.stride as u32,
                    uv_stride: raw.uv_stride as u32,
                    a_stride: raw.a_stride as u32,
                },
            ),
            _ => Err(WebPSimpleError),
        }
    } else {
        Err(WebPSimpleError)
    }
}

/// Reads the result of a query for the complete rows of a planar image.
#[verifier::when_used_as_spec(spec_partial_yuva)]
pub fn partial_yuva(raw: RawYUVA) -> (r: Result<WebPIDecGetYUVAResult, WebPSimpleError>)
    ensures
        r == spec_partial_yuva(raw),
        r matches Ok(rows) ==> {
            &&& rows.luma.len == rows.stride * rows.last_y
            &&& rows.u.len == rows.uv_stride * ((rows.last_y + 1) / 2)
            &&& rows.v.len == rows.u.len
            &&& rows.a matches Some(alpha) ==> alpha.len == rows.a_stride * rows.last_y
            &&& rows.a is Some <==> raw.a != 0
        },
{
    if raw.luma == 0 || raw.u == 0 || raw.v == 0 {
        return Err(WebPSimpleError);
    }
    if raw.last_y < 0 || raw.width < 0 || raw.height < 0 || raw.stride < 0 || raw.uv_stride < 0
        || raw.a_stride < 0 {
        return Err(WebPSimpleError);
    }
    let last_y = raw.last_y as u32;
    let luma_len = match plane_len(raw.stride as u32, last_y) {
        Some(len) => len,
        None => { return Err(WebPSimpleError); },
    };
    let uv_len = match plane_len(raw.uv_stride as u32, half_ceil(last_y)) {
        Some(len) => len,
        None => { return Err(WebPSimpleError); },
    };
    let a = if raw.a != 0 {
        match plane_len(raw.a_stride as u32, last_y) {
            Some(len) => Some(RawBytes { addr: raw.a, len }),
            None => { return Err(WebPSimpleError); },
        }
    } else {
        None
    };
    Ok(
        WebPIDecGetYUVAResult {
            luma: RawBytes { addr: raw.luma, len: luma_len },
            last_y,
            u: RawBytes { addr: raw.u, len: uv_len },
            v: RawBytes { addr: raw.v, len: uv_len },
            a,
            width: raw.width as u32,
            height: raw.height as u32,
            stride: raw.stride as u32,
            uv_stride: raw.uv_stride as u32,
            a_stride: raw.a_stride as u32,
        },
    )
}

} // verus!
