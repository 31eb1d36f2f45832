//! Handles for regions that the codec allocated.
//!
//! A handle records where a region lies and how long it is. It stands for the
//! exclusive ownership of that region: it cannot be copied, it is built only
//! from a non-null address, and the one address that releases the region is
//! handed out only by a method that consumes the handle.

use crate::error::WebPSimpleError;
use vstd::prelude::*;

verus! {

/// Where a byte region lies in foreign memory: the address of its first byte
/// and its length. Address 0 is the null pointer.
#[derive(Debug, Clone, Copy, PartialEq, Eq, Structural, Hash)]
pub struct RawBytes {
    pub addr: usize,
    pub len: usize,
}

impl RawBytes {
    /// The pointer is null.
    pub open spec fn spec_is_null(self) -> bool {
        self.addr == 0
    }

    /// The address one past the last byte.
    pub open spec fn end(self) -> int {
        self.addr + self.len
    }

    /// The region ends inside the address space.
    pub open spec fn spec_fits(self) -> bool {
        self.end() <= usize::MAX
    }

    /// The byte at address `a` belongs to the region.
    pub open spec fn holds(self, a: int) -> bool {
        self.addr <= a < self.end()
    }

    /// The two regions lie apart: one is empty, or one ends where the other
    /// begins or before.
    pub open spec fn spec_disjoint(self, other: RawBytes) -> bool {
        self.len == 0 || other.len == 0 || self.end() <= other.addr || other.end() <= self.addr
    }

    /// Regions that lie apart share no byte, and regions that share no byte
    /// lie apart.
    pub proof fn disjoint_means_no_shared_byte(self, other: RawBytes)
        ensures
            self.spec_disjoint(other) <==> forall|a: int| !(self.holds(a) && other.holds(a)),
    {
        if !self.spec_disjoint(other) {
            let a = if self.addr >= other.addr {
                self.addr as int
            } else {
                other.addr as int
            };
            assert(self.holds(a) && other.holds(a));
        }
    }

    /// Lying apart does not depend on the order of the two regions.
    pub proof fn disjoint_is_symmetric(self, other: RawBytes)
        ensures
            self.spec_disjoint(other) == other.spec_disjoint(self),
    {
    }

    /// Whether the pointer is null.
    #[verifier::when_used_as_spec(spec_is_null)]
    pub fn is_null(self) -> (b: bool)
        ensures
            b == self.spec_is_null(),
    {
        self.addr == 0
    }

    /// Whether the region ends inside the address space.
    #[verifier::when_used_as_spec(spec_fits)]
    pub fn fits(self) -> (b: bool)
        ensures
            b == self.spec_fits(),
    {
        self.addr.checked_add(self.len).is_some()
    }

    /// Whether the two regions lie apart.
    #[verifier::when_used_as_spec(spec_disjoint)]
    pub fn disjoint(self, other: RawBytes) -> (b: bool)
        ensures
            b == self.spec_disjoint(other),
    {
        if self.len == 0 || other.len == 0 {
            return true;
        }
        let self_before = match self.addr.checked_add(self.len) {
            Some(end) => end <= other.addr,
            None => false,
        };
        let other_before = match other.addr.checked_add(other.len) {
            Some(end) => end <= self.addr,
            None => false,
        };
        self_before || other_before
    }
}

/// The owner of one region that the codec allocated.
///
/// The region is released through its head address, which `release` hands
/// out; `into_raw` gives the region up without releasing it.
#[derive(Debug, PartialEq, Eq)]
pub struct WebpBox {
    raw: RawBytes,
}

impl View for WebpBox {
    type V = RawBytes;

    closed spec fn view(&self) -> RawBytes {
        self.raw
    }
}

impl WebpBox {
    /// A handle never holds the null pointer.
    pub open spec fn wf(&self) -> bool {
        !self@.spec_is_null()
    }

    /// Takes ownership of the region `raw`.
    pub fn from_raw(raw: RawBytes) -> (b: WebpBox)
        requires
            !raw.spec_is_null(),
        ensures
            b.wf(),
            b@ == raw,
    {
        WebpBox { raw }
    }

    /// Gives the region up without releasing it: from here on the caller
    /// answers for it.
    pub fn into_raw(b: WebpBox) -> (raw: RawBytes)
        ensures
            raw == b@,
    {
        b.raw
    }

    /// The region that the handle owns.
    pub fn region(&self) -> (raw: RawBytes)
        ensures
            raw == self@,
    {
        self.raw
    }

    /// The number of bytes in the region.
    pub fn len(&self) -> (n: usize)
        ensures
            n == self@.len,
    {
        self.raw.len
    }

    /// Ends the handle and names the address to hand to the codec's
    /// deallocation routine: the head of the region.
    pub fn release(self) -> (head: usize)
        requires
            self.wf(),
        ensures
            head == self@.addr,
            head != 0,
    {
        self.raw.addr
    }
}

/// Builds a handle from what a codec call returned, unless the pointer is
/// null.
pub fn wrap_bytes(ptr: usize, len: usize) -> (r: Result<WebpBox, WebPSimpleError>)
    ensures
        r is Ok <==> ptr != 0,
        r matches Ok(b) ==> b.wf() && b@ == (RawBytes { addr: ptr, len }),
{
    if ptr != 0 {
        Ok(WebpBox::from_raw(RawBytes { addr: ptr, len }))
    } else {
        Err(WebPSimpleError)
    }
}

/// Whether three regions can be the planes of one three-plane image: none is
/// null, each ends inside the address space, no two share a byte, and the
/// second and third do not begin before the first, in whose allocation they
/// lie.
pub open spec fn planes_valid(y: RawBytes, u: RawBytes, v: RawBytes) -> bool {
    &&& !y.spec_is_null() && !u.spec_is_null() && !v.spec_is_null()
    &&& y.spec_fits() && u.spec_fits() && v.spec_fits()
    &&& y.spec_disjoint(u) && y.spec_disjoint(v) && u.spec_disjoint(v)
    &&& y.addr <= u.addr && y.addr <= v.addr
}

/// Planes that lie one behind the other, as the codec allocates them, are
/// valid planes: the luma plane at a head that is not null, the first chroma
/// plane where the luma plane ends, the second where the first ends, and all
/// of it inside the address space.
pub proof fn planes_in_a_row_are_valid(head: usize, y_len: usize, uv_len: usize)
    requires
        head != 0,
        head + y_len + uv_len + uv_len <= usize::MAX,
    ensures
        planes_valid(
            RawBytes { addr: head, len: y_len },
            RawBytes { addr: (head + y_len) as usize, len: uv_len },
            RawBytes { addr: (head + y_len + uv_len) as usize, len: uv_len },
        ),
{
}

/// Decides `planes_valid`.
pub fn check_planes(y: RawBytes, u: RawBytes, v: RawBytes) -> (b: bool)
    ensures
        b == planes_valid(y, u, v),
{
    !y.is_null() && !u.is_null() && !v.is_null() && y.fits() && u.fits() && v.fits() && y.disjoint(
        u,
    ) && y.disjoint(v) && u.disjoint(v) && y.addr <= u.addr && y.addr <= v.addr
}

/// The owner of a three-plane image that the codec allocated in one piece.
///
/// Only the first plane is an allocation of its own. The other two lie in the
/// same allocation, so the head of the first plane releases all three.
#[derive(Debug, PartialEq, Eq)]
pub struct WebpYuvBox {
    y: RawBytes,
    u: RawBytes,
    v: RawBytes,
}

impl View for WebpYuvBox {
    type V = (RawBytes, RawBytes, RawBytes);

    closed spec fn view(&self) -> (RawBytes, RawBytes, RawBytes) {
        (self.y, self.u, self.v)
    }
}

impl WebpYuvBox {
    /// The planes of a handle are always valid planes.
    pub open spec fn wf(&self) -> bool {
        planes_valid(self@.0, self@.1, self@.2)
    }

    /// Takes ownership of the three planes.
    pub fn from_raw_yuv(y: RawBytes, u: RawBytes, v: RawBytes) -> (b: WebpYuvBox)
        requires
            planes_valid(y, u, v),
        ensures
            b.wf(),
            b@ == (y, u, v),
    {
        WebpYuvBox { y, u, v }
    }

    /// Takes ownership of the three planes if they are valid planes.
    pub fn try_from_raw_yuv(y: RawBytes, u: RawBytes, v: RawBytes) -> (r: Result<
        WebpYuvBox,
        WebPSimpleError,
    >)
        ensures
            r is Ok <==> planes_valid(y, u, v),
            r matches Ok(b) ==> b.wf() && b@ == (y, u, v),
    {
        if check_planes(y, u, v) {
            Ok(WebpYuvBox::from_raw_yuv(y, u, v))
        } else {
            Err(WebPSimpleError)
        }
    }

    /// Gives the three planes up without releasing anything.
    pub fn into_raw_yuv(self) -> (raw: (RawBytes, RawBytes, RawBytes))
        ensures
            raw == self@,
    {
        (self.y, self.u, self.v)
    }

    /// The luma plane.
    pub fn y(&self) -> (raw: RawBytes)
        ensures
            raw == self@.0,
    {
        self.y
    }

    /// The first chroma plane.
    pub fn u(&self) -> (raw: RawBytes)
        ensures
            raw == self@.1,
    {
        self.u
    }

    /// The second chroma plane.
    pub fn v(&self) -> (raw: RawBytes)
        ensures
            raw == self@.2,
    {
        self.v
    }

    /// All three planes at once. No two of them share a byte, so each can be
    /// written while the others are read.
    pub fn yuv(&self) -> (raw: (RawBytes, RawBytes, RawBytes))
        requires
            self.wf(),
        ensures
            raw == self@,
            forall|a: int| !(raw.0.holds(a) && raw.1.holds(a)),
            forall|a: int| !(raw.0.holds(a) && raw.2.holds(a)),
            forall|a: int| !(raw.1.holds(a) && raw.2.holds(a)),
    {
        proof {
            self.y.disjoint_means_no_shared_byte(self.u);
            self.y.disjoint_means_no_shared_byte(self.v);
            self.u.disjoint_means_no_shared_byte(self.v);
        }
        (self.y, self.u, self.v)
    }

    /// Keeps the luma plane alone. The handle that comes out releases the
    /// same allocation as this one would have.
    pub fn into_y(self) -> (b: WebpBox)
        requires
            self.wf(),
        ensures
            b.wf(),
            b@ == self@.0,
    {
        WebpBox::from_raw(self.y)
    }

    /// Ends the handle and names the address to hand to the codec's
    /// deallocation routine: the head of the luma plane, and no other.
    pub fn release(self) -> (head: usize)
        requires
            self.wf(),
        ensures
            head == self@.0.addr,
            head != 0,
    {
        self.y.addr
    }
}

} // verus!
