//! The type-erasure hand-off: passing a concretely typed handle through an
//! interface that only understands the generic contiguity/headroom
//! capability, and recovering the original concrete type on the way back.
//!
//! Erasure goes through a [`BufferExchange`], a single-slot token owned by
//! the layer that hands buffers down.  Erasing parks the concretely typed
//! handle in the slot and yields a [`PacketBufferDyn`], a generic handle
//! carrying only the runtime type tag recorded at erase time and the
//! contiguity, headroom and length of the chain.  Recovery presents the
//! generic handle back to an exchange: it succeeds exactly when the tag
//! matches and an erasure is outstanding, releases the slot, and returns the
//! original handle.  A second erase while one is outstanding, a second
//! recovery from the same erase, and recovery of a handle never erased are
//! all rejected.

use vstd::prelude::*;

use crate::chain::PacketBuffer;
use crate::handle::PacketBufferMut;

verus! {

/// A type-erased buffer handle: the runtime type tag recorded at erase time
/// together with the claims and the total length of the underlying chain.
/// The chain itself stays parked in the exchange, so the generic handle is a
/// plain descriptor; recovery through the exchange still succeeds at most
/// once per erase.
#[derive(Clone, Copy)]
pub struct PacketBufferDyn {
    tag: u64,
    contiguous: bool,
    headroom: usize,
    length: usize,
}

impl PacketBufferDyn {
    /// The runtime type tag recorded at erase time.
    pub closed spec fn tag_of(&self) -> u64 {
        self.tag
    }

    /// The contiguity claim carried over from the erased handle.
    pub closed spec fn claimed_contiguous(&self) -> bool {
        self.contiguous
    }

    /// The headroom claim carried over from the erased handle.
    pub closed spec fn claimed_headroom(&self) -> usize {
        self.headroom
    }

    /// The total chain length recorded at erase time.
    pub closed spec fn length_of(&self) -> nat {
        self.length as nat
    }

    /// The claims stay conservative through erasure: the recorded headroom
    /// never exceeds the recorded length.
    pub open spec fn wf(&self) -> bool {
        self.claimed_headroom() <= self.length_of()
    }

    /// The runtime type tag.
    pub fn tag(&self) -> (r: u64)
        ensures
            r == self.tag_of(),
    {
        self.tag
    }

    /// The recorded total chain length.
    pub fn len(&self) -> (r: usize)
        ensures
            r == self.length_of(),
    {
        self.length
    }

    /// The carried headroom claim.
    pub fn headroom(&self) -> (r: usize)
        ensures
            r == self.claimed_headroom(),
    {
        self.headroom
    }

    /// The carried contiguity claim.
    pub fn is_contiguous(&self) -> (r: bool)
        ensures
            r == self.claimed_contiguous(),
    {
        self.contiguous
    }
}

/// The single-slot "currently outstanding erasure" token: the record linking
/// an erased generic handle to its original concrete type.  The slot is
/// claimed at erase and released at recovery; its tag is the runtime type
/// identifier the owning layer chose for `T`.
pub struct BufferExchange<T: PacketBuffer> {
    slot: Option<PacketBufferMut<T>>,
    tag: u64,
}

impl<T: PacketBuffer> BufferExchange<T> {
    /// The handle parked by an outstanding erasure, if any.
    pub closed spec fn stored(&self) -> Option<PacketBufferMut<T>> {
        self.slot
    }

    /// The exchange's runtime type tag.
    pub closed spec fn tag_of(&self) -> u64 {
        self.tag
    }

    /// Whether an erasure is currently outstanding.
    pub open spec fn outstanding(&self) -> bool {
        self.stored() is Some
    }

    /// Any parked handle is well-formed.
    pub open spec fn wf(&self) -> bool {
        self.stored() matches Some(h) ==> h.wf()
    }

    /// A fresh exchange under the given type tag, with no erasure
    /// outstanding.
    pub fn new(tag: u64) -> (r: Self)
        ensures
            r.wf(),
            !r.outstanding(),
            r.tag_of() == tag,
    {
        BufferExchange { slot: None, tag }
    }
}

/// The exchange and the generic handle that erasing `h` through `ex` yields,
/// when no erasure is outstanding: the slot claims `h`, and the generic
/// handle records the exchange's tag beside `h`'s claims and length.
pub closed spec fn erase_step<T: PacketBuffer>(
    ex: BufferExchange<T>,
    h: PacketBufferMut<T>,
) -> (BufferExchange<T>, PacketBufferDyn) {
    (
        BufferExchange { slot: Some(h), tag: ex.tag },
        PacketBufferDyn {
            tag: ex.tag,
            contiguous: h.claimed_contiguous(),
            headroom: h.claimed_headroom(),
            length: h.total() as usize,
        },
    )
}

/// The exchange and the result that presenting the generic handle `dh` to
/// `ex` yields: the parked handle, releasing the slot, exactly when `dh`'s
/// tag matches and an erasure is outstanding; otherwise a rejection, leaving
/// the exchange unchanged.
pub closed spec fn recover_step<T: PacketBuffer>(
    ex: BufferExchange<T>,
    dh: PacketBufferDyn,
) -> (BufferExchange<T>, Option<PacketBufferMut<T>>) {
    match ex.slot {
        Some(h) => if dh.tag == ex.tag {
            (BufferExchange { slot: None, tag: ex.tag }, Some(h))
        } else {
            (ex, None)
        },
        None => (ex, None),
    }
}

/// What an erase records, stated over the claims: the slot holds exactly the
/// erased handle, the tags agree, and the generic handle carries the erased
/// handle's claims and length unchanged.
pub proof fn lemma_erase_step_facts<T: PacketBuffer>(ex: BufferExchange<T>, h: PacketBufferMut<T>)
    ensures
        ({
            let (ex1, dh) = erase_step(ex, h);
            &&& ex1.stored() == Some(h)
            &&& ex1.tag_of() == ex.tag_of()
            &&& dh.tag_of() == ex.tag_of()
            &&& dh.claimed_contiguous() == h.claimed_contiguous()
            &&& dh.claimed_headroom() == h.claimed_headroom()
            &&& h.wf() ==> dh.length_of() == h.total() && dh.wf()
        }),
{
}

/// What a recovery decides, stated over the claims: it succeeds, with the
/// parked handle and the slot released, exactly when the tags agree and an
/// erasure is outstanding, and otherwise fails leaving the exchange as it
/// was.
pub proof fn lemma_recover_step_facts<T: PacketBuffer>(ex: BufferExchange<T>, dh: PacketBufferDyn)
    ensures
        ({
            let (ex1, r) = recover_step(ex, dh);
            &&& (dh.tag_of() == ex.tag_of() && ex.outstanding()) ==> r == ex.stored()
                && !ex1.outstanding() && ex1.tag_of() == ex.tag_of()
            &&& !(dh.tag_of() == ex.tag_of() && ex.outstanding()) ==> r is None && ex1 == ex
        }),
{
}

impl<T: PacketBuffer> PacketBufferMut<T> {
    /// Erases the handle's concrete chain type, parking it in the exchange
    /// and yielding a generic handle that retains the runtime type tag and
    /// the contiguity/headroom claims.  While an erasure is outstanding a
    /// second erase is rejected and the handle is returned untouched.
    pub fn into_dyn_mut(self, ex: &mut BufferExchange<T>) -> (r: Result<
        PacketBufferDyn,
        PacketBufferMut<T>,
    >)
        requires
            self.wf(),
            old(ex).wf(),
        ensures
            final(ex).wf(),
            !old(ex).outstanding() ==> (r matches Ok(dh)
                && (*final(ex), dh) == erase_step(*old(ex), self)),
            old(ex).outstanding() ==> (r matches Err(back)
                && back == self
                && *final(ex) == *old(ex)),
    {
        if ex.slot.is_some() {
            Err(self)
        } else {
            let dh = PacketBufferDyn {
                tag: ex.tag,
                contiguous: self.is_contiguous(),
                headroom: self.headroom(),
                length: self.len(),
            };
            ex.slot = Some(self);
            Ok(dh)
        }
    }

    /// Recovers the concretely typed handle that the generic handle stands
    /// for: the checked downcast.  It succeeds exactly when the generic
    /// handle's tag matches the exchange's and an erasure is outstanding;
    /// recovering twice, or recovering a handle never erased, yields `None`.
    pub fn downcast(dh: PacketBufferDyn, ex: &mut BufferExchange<T>) -> (r: Option<
        PacketBufferMut<T>,
    >)
        requires
            old(ex).wf(),
        ensures
            final(ex).wf(),
            (*final(ex), r) == recover_step(*old(ex), dh),
            r matches Some(h) ==> h.wf(),
    {
        if dh.tag == ex.tag {
            ex.slot.take()
        } else {
            None
        }
    }
}

/// Erase/recover round-trip: erasing a handle and recovering through the
/// same exchange returns exactly the original handle and releases the
/// exchange.
pub proof fn lemma_erase_recover_round_trip<T: PacketBuffer>(
    ex: BufferExchange<T>,
    h: PacketBufferMut<T>,
)
    requires
        !ex.outstanding(),
    ensures
        ({
            let (ex1, dh) = erase_step(ex, h);
            let (ex2, r) = recover_step(ex1, dh);
            &&& r == Some(h)
            &&& !ex2.outstanding()
            &&& ex2.tag_of() == ex.tag_of()
        }),
{
}

/// Recovering through an exchange whose tag differs from the one recorded at
/// erase time fails and leaves that exchange unchanged: a generic handle
/// comes back only as the type it was erased from.
pub proof fn lemma_recover_wrong_tag<T: PacketBuffer, U: PacketBuffer>(
    ex: BufferExchange<T>,
    h: PacketBufferMut<T>,
    other: BufferExchange<U>,
)
    requires
        other.tag_of() != ex.tag_of(),
    ensures
        ({
            let (ex1, dh) = erase_step(ex, h);
            let (ex2, r) = recover_step(other, dh);
            &&& r is None
            &&& ex2 == other
        }),
{
}

/// Double recovery is rejected: after one erase, the first recovery yields
/// the original handle and the second yields nothing.
pub proof fn lemma_double_recover_rejected<T: PacketBuffer>(
    ex: BufferExchange<T>,
    h: PacketBufferMut<T>,
)
    requires
        !ex.outstanding(),
    ensures
        ({
            let (ex1, dh) = erase_step(ex, h);
            let (ex2, r1) = recover_step(ex1, dh);
            let (ex3, r2) = recover_step(ex2, dh);
            &&& r1 == Some(h)
            &&& r2 is None
            &&& ex3 == ex2
        }),
{
}

/// Recovering when no erasure is outstanding is rejected and changes
/// nothing.
pub proof fn lemma_recover_without_erase<T: PacketBuffer>(
    ex: BufferExchange<T>,
    dh: PacketBufferDyn,
)
    requires
        !ex.outstanding(),
    ensures
        recover_step(ex, dh).1 is None,
        recover_step(ex, dh).0 == ex,
{
}

} // verus!
