//! A 64-bit packed handle for generational arenas: a slot index, an epoch
//! (generation counter) and a storage identifier in one machine word.
use vstd::prelude::*;

pub mod bitfield;

pub use bitfield::PointerData;

verus! {

/// Position of a slot within its storage. Only the low 40 bits can be packed;
/// a fixed 64-bit type keeps that range available on every target.
pub type Index = u64;

/// Generation counter of a slot, bumped when the slot is reused.
pub type Epoch = u16;

/// Identifier of the storage that a handle's index refers into.
pub type StorageId = u8;

} // verus!
