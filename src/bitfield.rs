use vstd::prelude::*;

use crate::{Epoch, Index, StorageId};

verus! {

use vstd::arithmetic::power2::{lemma2_to64, lemma2_to64_rest, pow2};

/// Width of the index field, the lowest bits of the word.
pub const INDEX_BITS: u8 = 40;
/// Width of the epoch field, just above the index.
pub const EPOCH_BITS: u8 = 16;
/// Width of the storage id field, the highest bits of the word.
pub const STORAGE_ID_BITS: u8 = 8;
/// Bit position where the epoch field starts.
pub const EPOCH_OFFSET: u8 = INDEX_BITS;
/// Bit position where the storage id field starts.
pub const STORAGE_ID_OFFSET: u8 = EPOCH_OFFSET + EPOCH_BITS;
/// Bits `[0, 40)`.
pub const INDEX_MASK: u64 = 0x0000_00ff_ffff_ffff;
/// Bits `[40, 56)`.
pub const EPOCH_MASK: u64 = 0x00ff_ff00_0000_0000;
/// Bits `[56, 64)`.
pub const STORAGE_ID_MASK: u64 = 0xff00_0000_0000_0000;

/// The index stored in a packed word: its bits `[0, 40)`, i.e. `w mod 2^40`.
pub open spec fn index_of(w: u64) -> u64 {
    w % 0x100_0000_0000
}

/// The epoch stored in a packed word: its bits `[40, 56)`.
pub open spec fn epoch_of(w: u64) -> u64 {
    (w / 0x100_0000_0000) % 0x1_0000
}

/// The storage id stored in a packed word: its bits `[56, 64)`.
pub open spec fn storage_id_of(w: u64) -> u64 {
    w / 0x100_0000_0000_0000
}

/// The word that holds the three fields: `index + epoch * 2^40 + storage * 2^56`.
pub open spec fn pack(index: int, epoch: int, storage: int) -> int {
    index + epoch * 0x100_0000_0000 + storage * 0x100_0000_0000_0000
}

/// A handle: index, epoch and storage id packed into one 64-bit word.
#[derive(Copy, Clone, Debug, PartialEq, Eq, Structural)]
pub struct PointerData(u64);

impl View for PointerData {
    type V = u64;

    /// The packed word.
    closed spec fn view(&self) -> u64 {
        self.0
    }
}

/// Bit-level facts on a word built from three in-range fields: the shifts are
/// multiplications, the sum fits in 64 bits and equals the bitwise or of the
/// shifted fields, and dividing the word gives each field back.
proof fn lemma_pack_bits(i: u64, e: u64, s: u64)
    by (bit_vector)
    requires
        i < 0x100_0000_0000,
        e < 0x1_0000,
        s < 0x100,
    ensures
        e << 40u64 == e * 0x100_0000_0000,
        s << 56u64 == s * 0x100_0000_0000_0000,
        i + e * 0x100_0000_0000 + s * 0x100_0000_0000_0000 <= 0xffff_ffff_ffff_ffff,
        ({
            let w = (i + e * 0x100_0000_0000 + s * 0x100_0000_0000_0000) as u64;
            &&& w == i | (e << 40u64) | (s << 56u64)
            &&& w % 0x100_0000_0000 == i
            &&& (w / 0x100_0000_0000) % 0x1_0000 == e
            &&& w / 0x100_0000_0000_0000 == s
        }),
{
}

/// Every word is the packing of its three decoded fields.
proof fn lemma_unpack_bits(w: u64)
    by (bit_vector)
    ensures
        w & INDEX_MASK == w % 0x100_0000_0000,
        (w & EPOCH_MASK) >> 40u64 == (w / 0x100_0000_0000) % 0x1_0000,
        (w & STORAGE_ID_MASK) >> 56u64 == w / 0x100_0000_0000_0000,
        w % 0x100_0000_0000 + ((w / 0x100_0000_0000) % 0x1_0000) * 0x100_0000_0000
            + (w / 0x100_0000_0000_0000) * 0x100_0000_0000_0000 == w,
{
}

/// The three fields exactly tile the 64-bit word: their widths sum to 64, each
/// mask is a run of ones of its field's width starting at its field's offset,
/// no two masks share a bit, and together they cover every bit.
pub proof fn lemma_field_layout()
    ensures
        INDEX_BITS + EPOCH_BITS + STORAGE_ID_BITS == 64,
        EPOCH_OFFSET == INDEX_BITS,
        STORAGE_ID_OFFSET == INDEX_BITS + EPOCH_BITS,
        INDEX_MASK == pow2(INDEX_BITS as nat) - 1,
        EPOCH_MASK == (pow2(EPOCH_BITS as nat) - 1) * pow2(EPOCH_OFFSET as nat),
        STORAGE_ID_MASK == (pow2(STORAGE_ID_BITS as nat) - 1) * pow2(STORAGE_ID_OFFSET as nat),
        INDEX_MASK & EPOCH_MASK == 0,
        INDEX_MASK & STORAGE_ID_MASK == 0,
        EPOCH_MASK & STORAGE_ID_MASK == 0,
        INDEX_MASK | EPOCH_MASK | STORAGE_ID_MASK == u64::MAX,
        pow2(INDEX_BITS as nat) == 0x100_0000_0000,
        pow2(STORAGE_ID_OFFSET as nat) == 0x100_0000_0000_0000,
{
    lemma2_to64();
    lemma2_to64_rest();
    assert(INDEX_MASK & EPOCH_MASK == 0) by (bit_vector);
    assert(INDEX_MASK & STORAGE_ID_MASK == 0) by (bit_vector);
    assert(EPOCH_MASK & STORAGE_ID_MASK == 0) by (bit_vector);
    assert(INDEX_MASK | EPOCH_MASK | STORAGE_ID_MASK == 0xffff_ffff_ffff_ffff) by (bit_vector);
}

/// Decoding a packed word gives back the index, epoch and storage id it was
/// packed from, for every index below `2^40`.
pub proof fn lemma_round_trip(index: Index, epoch: Epoch, storage: StorageId)
    requires
        index < 0x100_0000_0000,
    ensures
        0 <= pack(index as int, epoch as int, storage as int) <= u64::MAX,
        index_of(pack(index as int, epoch as int, storage as int) as u64) == index,
        epoch_of(pack(index as int, epoch as int, storage as int) as u64) == epoch,
        storage_id_of(pack(index as int, epoch as int, storage as int) as u64) == storage,
{
    lemma_pack_bits(index, epoch as u64, storage as u64);
}

/// Changing one field while the other two stay fixed changes only that field's
/// bits of the packed word, and leaves the other two decoded fields as they were.
pub proof fn lemma_field_isolation(
    i1: Index,
    e1: Epoch,
    s1: StorageId,
    i2: Index,
    e2: Epoch,
    s2: StorageId,
)
    requires
        i1 < 0x100_0000_0000,
        i2 < 0x100_0000_0000,
    ensures
        ({
            let w1 = pack(i1 as int, e1 as int, s1 as int) as u64;
            let w2 = pack(i2 as int, e2 as int, s2 as int) as u64;
            &&& e1 == e2 && s1 == s2 ==> (w1 ^ w2) & !INDEX_MASK == 0 && epoch_of(w1)
                == epoch_of(w2) && storage_id_of(w1) == storage_id_of(w2)
            &&& i1 == i2 && s1 == s2 ==> (w1 ^ w2) & !EPOCH_MASK == 0 && index_of(w1)
                == index_of(w2) && storage_id_of(w1) == storage_id_of(w2)
            &&& i1 == i2 && e1 == e2 ==> (w1 ^ w2) & !STORAGE_ID_MASK == 0 && index_of(w1)
                == index_of(w2) && epoch_of(w1) == epoch_of(w2)
        }),
{
    let (a1, b1, c1) = (i1, e1 as u64, s1 as u64);
    let (a2, b2, c2) = (i2, e2 as u64, s2 as u64);
    lemma_pack_bits(a1, b1, c1);
    lemma_pack_bits(a2, b2, c2);
    let w1 = pack(i1 as int, e1 as int, s1 as int) as u64;
    let w2 = pack(i2 as int, e2 as int, s2 as int) as u64;
    assert({
        &&& a1 < 0x100_0000_0000 && a2 < 0x100_0000_0000
        &&& b1 < 0x1_0000 && b2 < 0x1_0000
        &&& c1 < 0x100 && c2 < 0x100
        &&& w1 == a1 | (b1 << 40u64) | (c1 << 56u64)
        &&& w2 == a2 | (b2 << 40u64) | (c2 << 56u64)
    } ==> {
        &&& b1 == b2 && c1 == c2 ==> (w1 ^ w2) & !INDEX_MASK == 0
        &&& a1 == a2 && c1 == c2 ==> (w1 ^ w2) & !EPOCH_MASK == 0
        &&& a1 == a2 && b1 == b2 ==> (w1 ^ w2) & !STORAGE_ID_MASK == 0
    }) by (bit_vector);
}

/// Two handles are equal exactly when their indices, epochs and storage ids are
/// pairwise equal.
pub proof fn lemma_eq_iff_fields(a: PointerData, b: PointerData)
    ensures
        (a == b) <==> (index_of(a@) == index_of(b@) && epoch_of(a@) == epoch_of(b@)
            && storage_id_of(a@) == storage_id_of(b@)),
{
    lemma_unpack_bits(a.0);
    lemma_unpack_bits(b.0);
}

impl PointerData {
    /// Packs `index`, `epoch` and `storage` into one word. The index must fit
    /// in 40 bits: a larger one would spill into the epoch field.
    pub fn new(index: Index, epoch: Epoch, storage: StorageId) -> (r: Self)
        requires
            index < 0x100_0000_0000,
        ensures
            r@ == pack(index as int, epoch as int, storage as int),
            index_of(r@) == index,
            epoch_of(r@) == epoch,
            storage_id_of(r@) == storage,
    {
        let e = (epoch as u64) << EPOCH_OFFSET;
        let s = (storage as u64) << STORAGE_ID_OFFSET;
        proof {
            lemma_pack_bits(index, epoch as u64, storage as u64);
        }
        PointerData(index + e + s)
    }

    /// Packs the three fields when `index` fits in 40 bits, and returns `None`
    /// otherwise instead of letting the index spill into the epoch.
    pub fn try_new(index: Index, epoch: Epoch, storage: StorageId) -> (r: Option<Self>)
        ensures
            r is Some <==> index < 0x100_0000_0000,
            r matches Some(p) ==> p@ == pack(index as int, epoch as int, storage as int),
    {
        if index >> INDEX_BITS == 0 {
            proof {
                assert(index >> 40u8 == 0 ==> index < 0x100_0000_0000) by (bit_vector);
            }
            Some(Self::new(index, epoch, storage))
        } else {
            proof {
                assert(index >> 40u8 != 0 ==> index >= 0x100_0000_0000) by (bit_vector);
            }
            None
        }
    }

    /// The index field, bits `[0, 40)`.
    pub fn get_index(&self) -> (r: Index)
        ensures
            r == index_of(self@),
    {
        proof {
            lemma_unpack_bits(self.0);
        }
        self.0 & INDEX_MASK
    }

    /// The epoch field, bits `[40, 56)`.
    pub fn get_epoch(&self) -> (r: Epoch)
        ensures
            r == epoch_of(self@),
    {
        let f = (self.0 & EPOCH_MASK) >> EPOCH_OFFSET;
        proof {
            lemma_unpack_bits(self.0);
            assert(f < 0x1_0000 ==> f as u16 == f) by (bit_vector);
        }
        f as Epoch
    }

    /// The storage id field, bits `[56, 64)`.
    pub fn get_storage_id(&self) -> (r: StorageId)
        ensures
            r == storage_id_of(self@),
    {
        let f = (self.0 & STORAGE_ID_MASK) >> STORAGE_ID_OFFSET;
        proof {
            lemma_unpack_bits(self.0);
            assert(f < 0x100 ==> f as u8 == f) by (bit_vector);
        }
        f as StorageId
    }

    /// The packed word itself.
    pub fn to_bits(&self) -> (r: u64)
        ensures
            r == self@,
    {
        self.0
    }
}

} // verus!
