//! A zero-copy packet buffer abstraction for layered stacks.
//!
//! A packet buffer is a chain of segments ending in a terminal marker.  The
//! capability a layer holds is a [`handle::PacketBufferMut`]: unique ownership
//! of a chain's head together with two conservative claims, a contiguity flag
//! and a headroom reservation.  Layers narrow, widen, or consume the headroom
//! claim as the buffer moves up and down the stack, and hand concretely typed
//! chains through a type-erased interface with a checked recovery
//! ([`erase`]).

pub mod chain;
pub mod erase;
pub mod handle;
