//! The buffer handle: unique ownership of a chain's head together with the
//! two claims a layer relies on, a contiguity flag and a headroom
//! reservation.
//!
//! Both claims are conservative and are validated exactly once, at
//! construction or at an explicit runtime-checked widening: whenever a
//! well-formed handle exists, its claimed headroom never exceeds the chain's
//! true byte length, and contiguity is only ever claimed of chains with at
//! most one segment.  Every transforming operation consumes its input handle,
//! so at most one live handle to a given chain exists at any time.

use vstd::prelude::*;

use crate::chain::lemma_total_len_cons;
use crate::chain::total_len;
use crate::chain::MutablePacketSliceTy;
use crate::chain::PacketArr;
use crate::chain::PacketBuffer;
use crate::chain::PacketBufferEnd;
use crate::chain::PacketSlice;
use crate::chain::PacketSliceTy;

verus! {

/// The capability a layer holds: a uniquely owned chain tagged with a
/// contiguity claim and a headroom reservation claim.
pub struct PacketBufferMut<T: PacketBuffer> {
    inner: T,
    contiguous: bool,
    headroom: usize,
}

impl<T: PacketBuffer> PacketBufferMut<T> {
    /// The chain the handle owns, one byte span per segment, head first.
    pub closed spec fn chain(&self) -> Seq<Seq<u8>> {
        self.inner.segments()
    }

    /// The headroom reservation the handle claims: how many bytes the holder
    /// is entitled to consume by prepending.
    pub closed spec fn claimed_headroom(&self) -> usize {
        self.headroom
    }

    /// The contiguity the handle claims: whether the holder may rely on the
    /// chain being one unbroken memory region.
    pub closed spec fn claimed_contiguous(&self) -> bool {
        self.contiguous
    }

    /// Total bytes reachable by walking the chain from the handle's head.
    pub open spec fn total(&self) -> nat {
        total_len(self.chain())
    }

    /// The handle's claims are conservative: the claimed headroom never
    /// exceeds the chain's true byte length, and contiguity is only claimed
    /// of chains with at most one segment.
    pub open spec fn wf(&self) -> bool {
        &&& self.claimed_headroom() <= self.total()
        &&& self.total() <= usize::MAX
        &&& self.claimed_contiguous() ==> self.chain().len() <= 1
    }

    /// Total bytes reachable by walking the chain from the handle's head to
    /// the terminal marker.
    pub fn len(&self) -> (r: usize)
        requires
            self.wf(),
        ensures
            r == self.total(),
    {
        self.inner.len()
    }

    /// The claimed headroom reservation.
    pub fn headroom(&self) -> (r: usize)
        ensures
            r == self.claimed_headroom(),
    {
        self.headroom
    }

    /// The claimed contiguity.
    pub fn is_contiguous(&self) -> (r: bool)
        ensures
            r == self.claimed_contiguous(),
    {
        self.contiguous
    }

    /// Narrows the claimed headroom to `new_hdr_rsv`.  Narrowing a
    /// conservative bound is always safe: the operation is total and leaves
    /// the chain, its length and the contiguity claim untouched.
    pub fn reduce_headroom(self, new_hdr_rsv: usize) -> (r: PacketBufferMut<T>)
        requires
            self.wf(),
            new_hdr_rsv <= self.claimed_headroom(),
        ensures
            r.wf(),
            r.chain() == self.chain(),
            r.total() == self.total(),
            r.claimed_contiguous() == self.claimed_contiguous(),
            r.claimed_headroom() == new_hdr_rsv,
    {
        PacketBufferMut { inner: self.inner, contiguous: self.contiguous, headroom: new_hdr_rsv }
    }

    /// Widens the claimed headroom to `new_hdr_rsv`.  This is the one
    /// runtime-checked upgrade: it succeeds exactly when the chain's true
    /// total length supports the requested reservation, and otherwise
    /// refuses, leaving the caller to fall back to a smaller claim.
    pub fn restore_headroom(self, new_hdr_rsv: usize) -> (r: Option<PacketBufferMut<T>>)
        requires
            self.wf(),
        ensures
            new_hdr_rsv <= self.total() ==> (r matches Some(h)
                && h.wf()
                && h.chain() == self.chain()
                && h.total() == self.total()
                && h.claimed_contiguous() == self.claimed_contiguous()
                && h.claimed_headroom() == new_hdr_rsv),
            new_hdr_rsv > self.total() ==> r is None,
    {
        let n = self.inner.len();
        if n >= new_hdr_rsv {
            Some(
                PacketBufferMut {
                    inner: self.inner,
                    contiguous: self.contiguous,
                    headroom: new_hdr_rsv,
                },
            )
        } else {
            None
        }
    }

    /// Prepends a fixed-size array in front of the chain, consuming exactly
    /// its length from the claimed headroom.  The result is claimed
    /// contiguous only when the existing chain was exactly the terminal
    /// marker; any chain of two or more segments is never claimed contiguous,
    /// because its spans are not adjacent in physical memory.
    pub fn prepend<const LEN: usize>(self, data: [u8; LEN]) -> (r: PacketBufferMut<
        PacketArr<LEN, T>,
    >)
        requires
            self.wf(),
            LEN <= self.claimed_headroom(),
            self.total() + LEN <= usize::MAX,
        ensures
            r.wf(),
            r.chain() == seq![data@].add(self.chain()),
            r.total() == self.total() + LEN,
            r.claimed_headroom() == self.claimed_headroom() - LEN,
            r.claimed_contiguous() == (self.chain().len() == 0),
    {
        proof {
            lemma_total_len_cons(data@, self.chain());
        }
        let contiguous = self.inner.is_end();
        let headroom = self.headroom - LEN;
        PacketBufferMut { inner: PacketArr::from_arr(data, self.inner), contiguous, headroom }
    }
}

impl PacketBufferMut<PacketSlice<MutablePacketSliceTy, PacketBufferEnd>> {
    /// A handle over a terminal-only mutable slice chain.  The single segment
    /// is the tail of the chain, so contiguity is claimed; no headroom has
    /// been validated, so the reservation claim starts at zero.
    pub fn from_mut_slice_contiguous(
        ps: PacketSlice<MutablePacketSliceTy, PacketBufferEnd>,
    ) -> (r: Self)
        ensures
            r.wf(),
            r.chain() == ps.segments(),
            r.claimed_contiguous(),
            r.claimed_headroom() == 0,
    {
        // the chain is a single span, so its total length is the span's,
        // which fits usize like every span length
        let _n = ps.slice.len();
        proof {
            lemma_total_len_cons(ps.slice.bytes(), ps.next.segments());
        }
        PacketBufferMut { inner: ps, contiguous: true, headroom: 0 }
    }
}

impl<N: PacketBuffer> PacketBufferMut<PacketSlice<MutablePacketSliceTy, N>> {
    /// A handle over a mutable slice chain with an arbitrary tail.  The chain
    /// may hold further segments, so contiguity is not claimed; the headroom
    /// claim starts at zero.
    pub fn from_mut_slice(ps: PacketSlice<MutablePacketSliceTy, N>) -> (r: Self)
        requires
            total_len(ps.segments()) <= usize::MAX,
        ensures
            r.wf(),
            r.chain() == ps.segments(),
            !r.claimed_contiguous(),
            r.claimed_headroom() == 0,
    {
        PacketBufferMut { inner: ps, contiguous: false, headroom: 0 }
    }
}

impl<const LEN: usize> PacketBufferMut<PacketArr<LEN, PacketBufferEnd>> {
    /// A handle over a terminal-only inline array chain, claiming up to the
    /// array's length as headroom: the claim is validated here, once, against
    /// the physical span.
    pub fn from_mut_arr_contiguous(ps: PacketArr<LEN, PacketBufferEnd>, hdr_rsv: usize) -> (r:
        Self)
        requires
            hdr_rsv <= LEN,
        ensures
            r.wf(),
            r.chain() == ps.segments(),
            r.claimed_contiguous(),
            r.claimed_headroom() == hdr_rsv,
    {
        proof {
            lemma_total_len_cons(ps.arr@, ps.next.segments());
        }
        PacketBufferMut { inner: ps, contiguous: true, headroom: hdr_rsv }
    }
}

impl<const LEN: usize, N: PacketBuffer> PacketBufferMut<PacketArr<LEN, N>> {
    /// A handle over an inline array chain with an arbitrary tail, claiming
    /// up to the front array's length as headroom.  The headroom precedes the
    /// chain's data, so it is validated against the front span alone.
    pub fn from_mut_arr(ps: PacketArr<LEN, N>, hdr_rsv: usize) -> (r: Self)
        requires
            hdr_rsv <= LEN,
            total_len(ps.segments()) <= usize::MAX,
        ensures
            r.wf(),
            r.chain() == ps.segments(),
            !r.claimed_contiguous(),
            r.claimed_headroom() == hdr_rsv,
    {
        proof {
            lemma_total_len_cons(ps.arr@, ps.next.segments());
        }
        PacketBufferMut { inner: ps, contiguous: false, headroom: hdr_rsv }
    }
}

/// Narrowing is always safe: for every well-formed handle and every target at
/// or below the current claim, the narrowed handle is well-formed and keeps
/// the chain's length and the contiguity claim.
pub proof fn lemma_narrowing_safe<T: PacketBuffer>(
    h: PacketBufferMut<T>,
    narrowed: PacketBufferMut<T>,
)
    requires
        h.wf(),
        narrowed.chain() == h.chain(),
        narrowed.claimed_contiguous() == h.claimed_contiguous(),
        narrowed.claimed_headroom() <= h.claimed_headroom(),
    ensures
        narrowed.wf(),
        narrowed.total() == h.total(),
{
}

/// A well-formed handle over a chain of two or more segments never claims
/// contiguity: contiguity is exactly a single-segment property.
pub proof fn lemma_multi_segment_not_contiguous<T: PacketBuffer>(h: PacketBufferMut<T>)
    requires
        h.wf(),
        h.chain().len() >= 2,
    ensures
        !h.claimed_contiguous(),
{
}

} // verus!
