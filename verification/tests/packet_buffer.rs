use packetbuffer::chain::PacketArr;
use packetbuffer::chain::PacketBuffer;
use packetbuffer::chain::PacketBufferEnd;
use packetbuffer::chain::PacketSlice;
use packetbuffer::chain::ImmutablePacketSliceTy;
use packetbuffer::chain::MutablePacketSliceTy;
use packetbuffer::erase::BufferExchange;
use packetbuffer::handle::PacketBufferMut;

#[test]
fn terminal_marker_is_empty() {
    let end = PacketBufferEnd::new();
    assert_eq!(end.len(), 0);
    assert!(end.is_end());
}

#[test]
fn chain_len_sums_segments() {
    let end_chain = PacketSlice::<ImmutablePacketSliceTy, PacketBufferEnd>::from_slice_end(vec![1, 2, 3]);
    assert_eq!(end_chain.len(), 3);
    assert!(!end_chain.is_end());
    let longer = PacketSlice::<ImmutablePacketSliceTy, _>::from_slice(vec![9; 5], end_chain);
    assert_eq!(longer.len(), 8);
    let longest = PacketArr::from_arr([0u8; 4], longer);
    assert_eq!(longest.len(), 12);
}

#[test]
fn mutable_slice_chain_len() {
    let one = PacketSlice::<MutablePacketSliceTy, PacketBufferEnd>::from_slice_mut_end(vec![0; 10]);
    assert_eq!(one.len(), 10);
    let two = PacketSlice::<MutablePacketSliceTy, _>::from_slice_mut(vec![0; 7], one);
    assert_eq!(two.len(), 17);
    let also_one = PacketSlice::<MutablePacketSliceTy, PacketBufferEnd>::from_slice_end(vec![0; 2]);
    assert_eq!(also_one.len(), 2);
}

#[test]
fn arr_accessors() {
    let seg = PacketArr::from_arr_end([1u8, 2, 3]);
    assert_eq!(seg.inner(), &[1u8, 2, 3]);
    let mut seg = seg;
    seg.inner_mut()[0] = 9;
    assert_eq!(seg.inner(), &[9u8, 2, 3]);
    let (arr, rest) = seg.into_inner();
    assert_eq!(arr, [9u8, 2, 3]);
    assert_eq!(rest.len(), 0);
}

#[test]
fn empty_region_chain() {
    let empty = PacketSlice::<MutablePacketSliceTy, PacketBufferEnd>::from_slice_end(vec![]);
    let h = PacketBufferMut::from_mut_slice_contiguous(empty);
    assert_eq!(h.len(), 0);
    assert_eq!(h.headroom(), 0);
    assert!(h.is_contiguous());
}

#[test]
fn narrowing_preserves_length_and_contiguity() {
    let arr = PacketArr::from_arr_end([0u8; 16]);
    let h = PacketBufferMut::from_mut_arr_contiguous(arr, 12);
    assert_eq!(h.len(), 16);
    assert_eq!(h.headroom(), 12);
    assert!(h.is_contiguous());
    let narrowed = h.reduce_headroom(5);
    assert_eq!(narrowed.headroom(), 5);
    assert_eq!(narrowed.len(), 16);
    assert!(narrowed.is_contiguous());
    let to_zero = narrowed.reduce_headroom(0);
    assert_eq!(to_zero.headroom(), 0);
    assert_eq!(to_zero.len(), 16);
}

#[test]
fn prepend_consumes_exactly_the_array_length() {
    let arr = PacketArr::from_arr_end([0u8; 32]);
    let h = PacketBufferMut::from_mut_arr_contiguous(arr, 10);
    let before = h.len();
    let prepended = h.prepend([7u8, 7, 7, 7]);
    assert_eq!(prepended.headroom(), 6);
    assert_eq!(prepended.len(), before + 4);
    let exact = prepended.prepend([1u8, 2, 3, 4, 5, 6]);
    assert_eq!(exact.headroom(), 0);
    assert_eq!(exact.len(), before + 10);
}

#[test]
fn prepend_of_empty_array_changes_nothing() {
    let arr = PacketArr::from_arr_end([0u8; 8]);
    let h = PacketBufferMut::from_mut_arr_contiguous(arr, 3);
    let prepended = h.prepend([]);
    assert_eq!(prepended.headroom(), 3);
    assert_eq!(prepended.len(), 8);
}

#[test]
fn widening_is_exactly_as_permissive_as_physical_truth() {
    let arr = PacketArr::from_arr_end([0u8; 100]);
    let h = PacketBufferMut::from_mut_arr_contiguous(arr, 10);
    let widened = h.restore_headroom(100).expect("within the chain's length");
    assert_eq!(widened.headroom(), 100);
    assert_eq!(widened.len(), 100);
    assert!(widened.is_contiguous());
    assert!(widened.restore_headroom(101).is_none());
}

#[test]
fn widening_back_down_always_works() {
    let arr = PacketArr::from_arr_end([0u8; 20]);
    let h = PacketBufferMut::from_mut_arr_contiguous(arr, 15);
    let shrunk = h.restore_headroom(2).expect("narrowing through restore");
    assert_eq!(shrunk.headroom(), 2);
}

#[test]
fn contiguity_is_exactly_single_segment() {
    let single = PacketSlice::<MutablePacketSliceTy, PacketBufferEnd>::from_slice_end(vec![0; 6]);
    let h = PacketBufferMut::from_mut_slice_contiguous(single);
    assert!(h.is_contiguous());

    let tail = PacketSlice::<MutablePacketSliceTy, PacketBufferEnd>::from_slice_end(vec![0; 6]);
    let two = PacketSlice::<MutablePacketSliceTy, _>::from_slice_mut(vec![0; 4], tail);
    let h2 = PacketBufferMut::from_mut_slice(two);
    assert!(!h2.is_contiguous());

    let arr_tail = PacketArr::from_arr([0u8; 4], PacketSlice::<MutablePacketSliceTy, PacketBufferEnd>::from_slice_end(vec![0; 3]));
    let h3 = PacketBufferMut::from_mut_arr(arr_tail, 4);
    assert!(!h3.is_contiguous());
    assert_eq!(h3.len(), 7);
    assert_eq!(h3.headroom(), 4);
}

#[test]
fn prepending_breaks_contiguity() {
    let arr = PacketArr::from_arr_end([0u8; 8]);
    let h = PacketBufferMut::from_mut_arr_contiguous(arr, 4);
    assert!(h.is_contiguous());
    let prepended = h.prepend([1u8, 2]);
    assert!(!prepended.is_contiguous());
}

#[test]
fn erase_recover_round_trip() {
    let arr = PacketArr::from_arr_end([5u8; 24]);
    let h = PacketBufferMut::from_mut_arr_contiguous(arr, 8);
    let mut ex = BufferExchange::new(41);
    let dh = h.into_dyn_mut(&mut ex).ok().expect("no erasure outstanding");
    assert_eq!(dh.tag(), 41);
    assert_eq!(dh.len(), 24);
    assert_eq!(dh.headroom(), 8);
    assert!(dh.is_contiguous());
    let back = PacketBufferMut::downcast(dh, &mut ex).expect("tag matches");
    assert_eq!(back.len(), 24);
    assert_eq!(back.headroom(), 8);
    assert!(back.is_contiguous());
}

#[test]
fn recover_with_wrong_tag_fails() {
    let arr = PacketArr::from_arr_end([0u8; 4]);
    let h = PacketBufferMut::from_mut_arr_contiguous(arr, 0);
    let mut ex = BufferExchange::new(1);
    let dh = h.into_dyn_mut(&mut ex).ok().expect("no erasure outstanding");

    let mut other = BufferExchange::<PacketSlice<MutablePacketSliceTy, PacketBufferEnd>>::new(2);
    assert!(PacketBufferMut::downcast(dh, &mut other).is_none());
}

#[test]
fn second_erase_while_outstanding_is_rejected() {
    let first = PacketBufferMut::from_mut_arr_contiguous(PacketArr::from_arr_end([0u8; 4]), 0);
    let second = PacketBufferMut::from_mut_arr_contiguous(PacketArr::from_arr_end([9u8; 4]), 2);
    let mut ex = BufferExchange::new(3);
    assert!(first.into_dyn_mut(&mut ex).is_ok());
    let rejected = second.into_dyn_mut(&mut ex);
    let back = match rejected {
        Ok(_) => panic!("second erase must be rejected"),
        Err(back) => back,
    };
    assert_eq!(back.headroom(), 2);
    assert_eq!(back.len(), 4);
}

#[test]
fn double_recovery_is_rejected() {
    let arr = PacketArr::from_arr_end([0u8; 4]);
    let h = PacketBufferMut::from_mut_arr_contiguous(arr, 0);
    let mut ex = BufferExchange::new(17);
    let dh = h.into_dyn_mut(&mut ex).ok().expect("no erasure outstanding");
    assert!(PacketBufferMut::downcast(dh, &mut ex).is_some());
    assert!(PacketBufferMut::downcast(dh, &mut ex).is_none());
}

#[test]
fn recovery_without_erase_is_rejected() {
    let arr = PacketArr::from_arr_end([0u8; 4]);
    let h = PacketBufferMut::from_mut_arr_contiguous(arr, 0);
    let mut ex = BufferExchange::new(9);
    let dh = h.into_dyn_mut(&mut ex).ok().expect("no erasure outstanding");
    assert!(PacketBufferMut::downcast(dh, &mut ex).is_some());
    // nothing outstanding: a fresh handle erased elsewhere does not recover here
    let other = PacketBufferMut::from_mut_arr_contiguous(PacketArr::from_arr_end([0u8; 4]), 0);
    let mut elsewhere = BufferExchange::<PacketArr<4, PacketBufferEnd>>::new(9);
    let dh2 = other.into_dyn_mut(&mut elsewhere).ok().expect("no erasure outstanding");
    assert!(PacketBufferMut::downcast(dh2, &mut ex).is_none());
}

#[test]
fn layered_hand_off() {
    // a higher layer reserves 12 bytes, a lower layer prepends its 4-byte
    // header and passes the rest of the reservation on
    let region = PacketSlice::<MutablePacketSliceTy, PacketBufferEnd>::from_slice_mut_end(vec![0; 64]);
    let h = PacketBufferMut::from_mut_slice_contiguous(region);
    let h = h.restore_headroom(12).expect("64 bytes support a 12-byte claim");
    let h = h.prepend([0xAAu8, 0xBB, 0xCC, 0xDD]);
    assert_eq!(h.headroom(), 8);
    assert_eq!(h.len(), 68);
    let h = h.reduce_headroom(8);
    assert_eq!(h.len(), 68);
    assert!(!h.is_contiguous());
}
