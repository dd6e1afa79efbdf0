//! The chain data model: the terminal marker, slice segments and inline array
//! segments, linked head to tail.
//!
//! A chain is modelled in specifications as a sequence of byte spans, one per
//! segment, head first; the terminal marker contributes the empty sequence.

use vstd::prelude::*;

verus! {

/// Total number of bytes held by a chain whose segments carry these spans.
pub open spec fn total_len(segs: Seq<Seq<u8>>) -> nat
    decreases segs.len(),
{
    if segs.len() == 0 {
        0
    } else {
        segs.first().len() + total_len(segs.drop_first())
    }
}

/// Putting one span in front of a chain adds exactly that span's length.
pub proof fn lemma_total_len_cons(span: Seq<u8>, segs: Seq<Seq<u8>>)
    ensures
        total_len(seq![span].add(segs)) == span.len() + total_len(segs),
{
    let whole = seq![span].add(segs);
    assert(whole.first() == span);
    assert(whole.drop_first() =~= segs);
}

/// A chain of a single span holds exactly that span's bytes.
pub proof fn lemma_total_len_single(span: Seq<u8>)
    ensures
        total_len(seq![span]) == span.len(),
{
    reveal_with_fuel(total_len, 2);
    assert(seq![span].drop_first().len() == 0);
}

/// An element of a packet buffer chain: the terminal marker, or a segment
/// followed by the rest of the chain.
pub trait PacketBuffer: Sized {
    /// The chain from this element to the terminal marker, one byte span per
    /// segment, head first.
    spec fn segments(&self) -> Seq<Seq<u8>>;

    /// Total bytes reachable by walking the chain from here to the terminal
    /// marker.
    fn len(&self) -> (r: usize)
        requires
            total_len(self.segments()) <= usize::MAX,
        ensures
            r == total_len(self.segments()),
    ;

    /// Whether this element is the terminal marker itself.
    fn is_end(&self) -> (r: bool)
        ensures
            r == (self.segments().len() == 0),
    ;
}

/// The terminal marker denoting the end of a chain: no payload, length zero.
pub struct PacketBufferEnd;

impl PacketBufferEnd {
    pub fn new() -> (r: PacketBufferEnd)
        ensures
            r.segments() == Seq::<Seq<u8>>::empty(),
    {
        PacketBufferEnd
    }
}

impl PacketBuffer for PacketBufferEnd {
    open spec fn segments(&self) -> Seq<Seq<u8>> {
        Seq::empty()
    }

    fn len(&self) -> (r: usize) {
        0
    }

    fn is_end(&self) -> (r: bool) {
        true
    }
}

/// The span a slice segment owns.  One implementation wraps a mutable byte
/// region and one an immutable byte region; the chain structure is the same
/// for both.
pub trait PacketSliceTy: Sized {
    /// The bytes of the span.
    spec fn bytes(&self) -> Seq<u8>;

    /// The span's length.
    fn len(&self) -> (r: usize)
        ensures
            r == self.bytes().len(),
    ;
}

/// A mutable byte region owned by a slice segment.
pub struct MutablePacketSliceTy {
    pub data: Vec<u8>,
}

impl PacketSliceTy for MutablePacketSliceTy {
    open spec fn bytes(&self) -> Seq<u8> {
        self.data@
    }

    fn len(&self) -> (r: usize) {
        self.data.len()
    }
}

/// An immutable byte region owned by a slice segment.
pub struct ImmutablePacketSliceTy {
    pub data: Vec<u8>,
}

impl PacketSliceTy for ImmutablePacketSliceTy {
    open spec fn bytes(&self) -> Seq<u8> {
        self.data@
    }

    fn len(&self) -> (r: usize) {
        self.data.len()
    }
}

/// A chain segment owning an externally supplied byte region and the rest of
/// the chain.
pub struct PacketSlice<S: PacketSliceTy, N: PacketBuffer> {
    pub slice: S,
    pub next: N,
}

impl<S: PacketSliceTy, N: PacketBuffer> PacketBuffer for PacketSlice<S, N> {
    open spec fn segments(&self) -> Seq<Seq<u8>> {
        seq![self.slice.bytes()].add(self.next.segments())
    }

    fn len(&self) -> (r: usize) {
        proof {
            lemma_total_len_cons(self.slice.bytes(), self.next.segments());
        }
        self.slice.len() + self.next.len()
    }

    fn is_end(&self) -> (r: bool) {
        false
    }
}

impl PacketSlice<ImmutablePacketSliceTy, PacketBufferEnd> {
    /// A terminal-only chain over an immutable byte region.
    pub fn from_slice_end(data: Vec<u8>) -> (r: Self)
        ensures
            r.segments() == seq![data@],
            total_len(r.segments()) == data@.len(),
    {
        let ghost span = data@;
        let r = PacketSlice { slice: ImmutablePacketSliceTy { data }, next: PacketBufferEnd::new() };
        proof {
            assert(r.segments() =~= seq![span]);
            lemma_total_len_single(span);
        }
        r
    }
}

impl<N: PacketBuffer> PacketSlice<ImmutablePacketSliceTy, N> {
    /// A segment over an immutable byte region in front of an existing chain.
    pub fn from_slice(data: Vec<u8>, next: N) -> (r: Self)
        ensures
            r.segments() == seq![data@].add(next.segments()),
            total_len(r.segments()) == data@.len() + total_len(next.segments()),
    {
        proof {
            lemma_total_len_cons(data@, next.segments());
        }
        PacketSlice { slice: ImmutablePacketSliceTy { data }, next }
    }
}

impl PacketSlice<MutablePacketSliceTy, PacketBufferEnd> {
    /// A terminal-only chain over a mutable byte region.
    pub fn from_slice_end(data: Vec<u8>) -> (r: Self)
        ensures
            r.segments() == seq![data@],
            total_len(r.segments()) == data@.len(),
    {
        let ghost span = data@;
        let r = PacketSlice { slice: MutablePacketSliceTy { data }, next: PacketBufferEnd::new() };
        proof {
            assert(r.segments() =~= seq![span]);
            lemma_total_len_single(span);
        }
        r
    }

    /// A terminal-only chain over a mutable byte region.
    pub fn from_slice_mut_end(data: Vec<u8>) -> (r: Self)
        ensures
            r.segments() == seq![data@],
            total_len(r.segments()) == data@.len(),
    {
        Self::from_slice_end(data)
    }
}

impl<N: PacketBuffer> PacketSlice<MutablePacketSliceTy, N> {
    /// A segment over a mutable byte region in front of an existing chain.
    pub fn from_slice_mut(data: Vec<u8>, next: N) -> (r: Self)
        ensures
            r.segments() == seq![data@].add(next.segments()),
            total_len(r.segments()) == data@.len() + total_len(next.segments()),
    {
        proof {
            lemma_total_len_cons(data@, next.segments());
        }
        PacketSlice { slice: MutablePacketSliceTy { data }, next }
    }
}

/// A chain segment owning a fixed-size inline byte array and the rest of the
/// chain.
pub struct PacketArr<const LEN: usize, N: PacketBuffer> {
    pub arr: [u8; LEN],
    pub next: N,
}

impl<const LEN: usize, N: PacketBuffer> PacketBuffer for PacketArr<LEN, N> {
    open spec fn segments(&self) -> Seq<Seq<u8>> {
        seq![self.arr@].add(self.next.segments())
    }

    fn len(&self) -> (r: usize) {
        proof {
            lemma_total_len_cons(self.arr@, self.next.segments());
        }
        LEN + self.next.len()
    }

    fn is_end(&self) -> (r: bool) {
        false
    }
}

impl<const LEN: usize> PacketArr<LEN, PacketBufferEnd> {
    /// A terminal-only chain over an inline array.
    pub fn from_arr_end(arr: [u8; LEN]) -> (r: Self)
        ensures
            r.segments() == seq![arr@],
            total_len(r.segments()) == LEN,
    {
        let ghost span = arr@;
        let r = PacketArr { arr, next: PacketBufferEnd::new() };
        proof {
            assert(r.segments() =~= seq![span]);
            lemma_total_len_single(span);
        }
        r
    }
}

impl<const LEN: usize, N: PacketBuffer> PacketArr<LEN, N> {
    /// An inline array segment in front of an existing chain.
    pub fn from_arr(arr: [u8; LEN], next: N) -> (r: Self)
        ensures
            r.segments() == seq![arr@].add(next.segments()),
            total_len(r.segments()) == LEN + total_len(next.segments()),
    {
        proof {
            lemma_total_len_cons(arr@, next.segments());
        }
        PacketArr { arr, next }
    }

    /// Dissolves the segment into its array and the rest of the chain.
    pub fn into_inner(self) -> (r: ([u8; LEN], N))
        ensures
            r.0 == self.arr,
            r.1 == self.next,
    {
        (self.arr, self.next)
    }

    /// The segment's own byte array.
    pub fn inner(&self) -> (r: &[u8; LEN])
        ensures
            r == self.arr,
    {
        &self.arr
    }

    /// Mutable access to the segment's own byte array.
    pub fn inner_mut(&mut self) -> (r: &mut [u8; LEN])
        ensures
            *r == old(self).arr,
            final(self).arr == *final(r),
            final(self).next == old(self).next,
    {
        &mut self.arr
    }
}

} // verus!
