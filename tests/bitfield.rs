use std::mem::size_of;

use packed_handle::bitfield::{
    EPOCH_BITS, EPOCH_MASK, EPOCH_OFFSET, INDEX_BITS, INDEX_MASK, STORAGE_ID_BITS,
    STORAGE_ID_MASK, STORAGE_ID_OFFSET,
};
use packed_handle::{Epoch, Index, PointerData, StorageId};

#[test]
fn sizes() {
    assert_eq!(INDEX_BITS + EPOCH_BITS + STORAGE_ID_BITS, 64);
    assert!(size_of::<Index>() * 8 >= INDEX_BITS as usize);
    assert!(size_of::<Epoch>() * 8 >= EPOCH_BITS as usize);
    assert!(size_of::<StorageId>() * 8 >= STORAGE_ID_BITS as usize);
}

#[test]
fn new() {
    let pd = PointerData::new(1, 2, 3);
    assert_eq!(pd.get_index(), 1);
    assert_eq!(pd.get_epoch(), 2);
    assert_eq!(pd.get_storage_id(), 3);
}

#[test]
fn example_word_layout() {
    let pd = PointerData::new(1, 2, 3);
    assert_eq!(pd.to_bits(), 1 + (2u64 << 40) + (3u64 << 56));
}

#[test]
fn masks_tile_the_word() {
    assert_eq!(EPOCH_OFFSET, INDEX_BITS);
    assert_eq!(STORAGE_ID_OFFSET, INDEX_BITS + EPOCH_BITS);
    assert_eq!(INDEX_MASK, (1u64 << INDEX_BITS) - 1);
    assert_eq!(EPOCH_MASK, ((1u64 << EPOCH_BITS) - 1) << EPOCH_OFFSET);
    assert_eq!(STORAGE_ID_MASK, ((1u64 << STORAGE_ID_BITS) - 1) << STORAGE_ID_OFFSET);
    assert_eq!(INDEX_MASK & EPOCH_MASK, 0);
    assert_eq!(INDEX_MASK & STORAGE_ID_MASK, 0);
    assert_eq!(EPOCH_MASK & STORAGE_ID_MASK, 0);
    assert_eq!(INDEX_MASK | EPOCH_MASK | STORAGE_ID_MASK, u64::MAX);
}

#[test]
fn zero_round_trip() {
    let pd = PointerData::new(0, 0, 0);
    assert_eq!(pd.get_index(), 0);
    assert_eq!(pd.get_epoch(), 0);
    assert_eq!(pd.get_storage_id(), 0);
    assert_eq!(pd.to_bits(), 0);
}

#[test]
fn max_round_trip() {
    let pd = PointerData::new((1u64 << 40) - 1, u16::MAX, u8::MAX);
    assert_eq!(pd.get_index(), (1u64 << 40) - 1);
    assert_eq!(pd.get_epoch(), u16::MAX);
    assert_eq!(pd.get_storage_id(), u8::MAX);
    assert_eq!(pd.to_bits(), u64::MAX);
}

#[test]
fn round_trip_mixed_values() {
    let pd = PointerData::new(0x12_3456_789a, 0xbeef, 0x5c);
    assert_eq!(pd.get_index(), 0x12_3456_789a);
    assert_eq!(pd.get_epoch(), 0xbeef);
    assert_eq!(pd.get_storage_id(), 0x5c);
}

#[test]
fn changing_index_keeps_other_fields() {
    let a = PointerData::new(7, 300, 9);
    let b = PointerData::new(0xff_0000_0001, 300, 9);
    assert_eq!((a.to_bits() ^ b.to_bits()) & !INDEX_MASK, 0);
    assert_eq!(a.get_epoch(), b.get_epoch());
    assert_eq!(a.get_storage_id(), b.get_storage_id());
}

#[test]
fn changing_epoch_keeps_other_fields() {
    let a = PointerData::new(7, 300, 9);
    let b = PointerData::new(7, 301, 9);
    assert_eq!((a.to_bits() ^ b.to_bits()) & !EPOCH_MASK, 0);
    assert_eq!(a.get_index(), b.get_index());
    assert_eq!(a.get_storage_id(), b.get_storage_id());
}

#[test]
fn changing_storage_id_keeps_other_fields() {
    let a = PointerData::new(7, 300, 9);
    let b = PointerData::new(7, 300, 200);
    assert_eq!((a.to_bits() ^ b.to_bits()) & !STORAGE_ID_MASK, 0);
    assert_eq!(a.get_index(), b.get_index());
    assert_eq!(a.get_epoch(), b.get_epoch());
}

#[test]
fn equality_follows_fields() {
    let a = PointerData::new(5, 6, 7);
    assert_eq!(a, PointerData::new(5, 6, 7));
    assert_ne!(a, PointerData::new(4, 6, 7));
    assert_ne!(a, PointerData::new(5, 5, 7));
    assert_ne!(a, PointerData::new(5, 6, 8));
}

#[test]
fn try_new_accepts_largest_index() {
    let pd = PointerData::try_new((1u64 << 40) - 1, 2, 3).unwrap();
    assert_eq!(pd, PointerData::new((1u64 << 40) - 1, 2, 3));
    assert_eq!(pd.get_index(), (1u64 << 40) - 1);
}

#[test]
fn try_new_rejects_index_overflow() {
    // Packed unchecked, an index of 2^40 would be the word 2^40, which is
    // also the word of index 0 with epoch 1: the checked form refuses it.
    assert_eq!(PointerData::try_new(1u64 << 40, 0, 0), None);
    assert_eq!(PointerData::try_new(u64::MAX, 0, 0), None);
    assert_eq!(PointerData::new(0, 1, 0).to_bits(), 1u64 << 40);
}
