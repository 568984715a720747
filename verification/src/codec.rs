//! The action fingerprint and its two-byte wire form, and the namespaced
//! schedule key derived from a slot index.

use vstd::prelude::*;

verus! {

/// Compact discriminant pair identifying an action's outer and inner
/// variant. The pair `(0, 0)` is the sentinel meaning "no action pending".
#[derive(Clone, Copy, PartialEq, Eq, Structural, Debug)]
pub struct Fingerprint {
    pub pallet_idx: u8,
    pub call_idx: u8,
}

impl Fingerprint {
    /// True of the reserved pair that marks an empty registry.
    pub open spec fn is_sentinel(self) -> bool {
        self.pallet_idx == 0 && self.call_idx == 0
    }

    /// The reserved "no action pending" value.
    pub fn sentinel() -> (r: Fingerprint)
        ensures
            r.is_sentinel(),
    {
        Fingerprint { pallet_idx: 0, call_idx: 0 }
    }
}

/// The two-byte wire form of a fingerprint: outer tag, then inner tag.
pub open spec fn fingerprint_bytes(fp: Fingerprint) -> Seq<u8> {
    seq![fp.pallet_idx, fp.call_idx]
}

/// Serializes a fingerprint to its two-byte form.
pub fn encode_fingerprint(fp: &Fingerprint) -> (r: Vec<u8>)
    ensures
        r@ == fingerprint_bytes(*fp),
{
    let mut bytes: Vec<u8> = Vec::new();
    bytes.push(fp.pallet_idx);
    bytes.push(fp.call_idx);
    proof {
        assert(bytes@ =~= fingerprint_bytes(*fp));
    }
    bytes
}

/// Deserializes a fingerprint from its two-byte form; any other length is
/// malformed and rejected.
pub fn decode_fingerprint(bytes: &Vec<u8>) -> (r: Option<Fingerprint>)
    ensures
        match r {
            Some(fp) => bytes@ == fingerprint_bytes(fp),
            None => bytes@.len() != 2,
        },
{
    if bytes.len() == 2 {
        let fp = Fingerprint { pallet_idx: bytes[0], call_idx: bytes[1] };
        proof {
            assert(bytes@ =~= fingerprint_bytes(fp));
        }
        Some(fp)
    } else {
        None
    }
}

/// The fixed eight-byte namespace under which schedule keys are formed.
pub open spec fn namespace_bytes() -> Seq<u8> {
    seq![0x67u8, 0x61u8, 0x72u8, 0x62u8, 0x61u8, 0x67u8, 0x65u8, 0x63u8]
}

/// The four little-endian bytes of a slot index.
pub open spec fn index_le_bytes(index: u32) -> Seq<u8> {
    seq![
        (index & 0xff) as u8,
        ((index >> 8) & 0xff) as u8,
        ((index >> 16) & 0xff) as u8,
        ((index >> 24) & 0xff) as u8,
    ]
}

/// The schedule key for a slot index: the namespace followed by the index's
/// little-endian bytes. It identifies at most one live scheduled entry.
pub open spec fn schedule_key_bytes(index: u32) -> Seq<u8> {
    namespace_bytes() + index_le_bytes(index)
}

/// Serializes the schedule key for a slot index.
pub fn schedule_key(index: u32) -> (r: Vec<u8>)
    ensures
        r@ == schedule_key_bytes(index),
{
    let mut bytes: Vec<u8> = Vec::new();
    bytes.push(0x67u8);
    bytes.push(0x61u8);
    bytes.push(0x72u8);
    bytes.push(0x62u8);
    bytes.push(0x61u8);
    bytes.push(0x67u8);
    bytes.push(0x65u8);
    bytes.push(0x63u8);
    bytes.push((index & 0xff) as u8);
    bytes.push(((index >> 8) & 0xff) as u8);
    bytes.push(((index >> 16) & 0xff) as u8);
    bytes.push(((index >> 24) & 0xff) as u8);
    proof {
        assert(bytes@ =~= schedule_key_bytes(index));
    }
    bytes
}

/// Distinct slot indices always form distinct schedule keys.
pub proof fn lemma_schedule_key_injective(i: u32, j: u32)
    requires
        schedule_key_bytes(i) == schedule_key_bytes(j),
    ensures
        i == j,
{
    assert(index_le_bytes(i)[0] == schedule_key_bytes(i)[8]);
    assert(index_le_bytes(i)[1] == schedule_key_bytes(i)[9]);
    assert(index_le_bytes(i)[2] == schedule_key_bytes(i)[10]);
    assert(index_le_bytes(i)[3] == schedule_key_bytes(i)[11]);
    assert((i & 0xff) as u8 == (j & 0xff) as u8);
    assert(((i >> 8) & 0xff) as u8 == ((j >> 8) & 0xff) as u8);
    assert(((i >> 16) & 0xff) as u8 == ((j >> 16) & 0xff) as u8);
    assert(((i >> 24) & 0xff) as u8 == ((j >> 24) & 0xff) as u8);
    assert(i == j) by (bit_vector)
        requires
            (i & 0xff) as u8 == (j & 0xff) as u8,
            ((i >> 8) & 0xff) as u8 == ((j >> 8) & 0xff) as u8,
            ((i >> 16) & 0xff) as u8 == ((j >> 16) & 0xff) as u8,
            ((i >> 24) & 0xff) as u8 == ((j >> 24) & 0xff) as u8,
    ;
}

} // verus!
