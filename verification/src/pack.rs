//! Byte packing of renderer-bound records.
//!
//! The instance and uniform buffers handed to the renderer must hold exact,
//! documented byte layouts.  Rather than reinterpreting struct memory, each
//! record is packed field by field: a `u32` uniform is four little-endian
//! bytes padded to the sixteen-byte alignment uniform buffers require, and
//! the per-entity variant-index buffer is the entities' indices as
//! little-endian words, tightly packed in entity order (it must be repacked
//! whenever the depth sort reorders the entities).

use crate::entity::PetalState;
use vstd::prelude::*;

verus! {

use vstd::bytes::{spec_u32_to_le_bytes, u32_to_le_bytes};

/// The first `k` words of `values`, each as four little-endian bytes.
pub open spec fn u32s_le_prefix(values: Seq<u32>, k: nat) -> Seq<u8>
    recommends
        k <= values.len(),
    decreases k,
{
    if k == 0 {
        Seq::empty()
    } else {
        u32s_le_prefix(values, (k - 1) as nat) + spec_u32_to_le_bytes(values[k - 1])
    }
}

/// All of `values` as a tightly packed little-endian byte sequence.
pub open spec fn u32s_le(values: Seq<u32>) -> Seq<u8> {
    u32s_le_prefix(values, values.len())
}

/// The packed prefix grows by four bytes per word.
pub proof fn lemma_u32s_le_prefix_len(values: Seq<u32>, k: nat)
    requires
        k <= values.len(),
    ensures
        u32s_le_prefix(values, k).len() == 4 * k,
    decreases k,
{
    if k > 0 {
        lemma_u32s_le_prefix_len(values, (k - 1) as nat);
        vstd::bytes::lemma_auto_spec_u32_to_from_le_bytes();
    }
}

/// Packs the words into little-endian bytes, four per word.
pub fn pack_u32s_le(values: &Vec<u32>) -> (r: Vec<u8>)
    requires
        values.len() <= 0x400_0000,
    ensures
        r@ == u32s_le(values@),
        r@.len() == 4 * values@.len(),
{
    let mut r: Vec<u8> = Vec::new();
    let mut i: usize = 0;
    while i < values.len()
        invariant
            i <= values.len() <= 0x400_0000,
            r@ == u32s_le_prefix(values@, i as nat),
            r@.len() == 4 * i,
        decreases values.len() - i,
    {
        let mut word = u32_to_le_bytes(values[i]);
        r.append(&mut word);
        i = i + 1;
    }
    proof {
        lemma_u32s_le_prefix_len(values@, values@.len());
    }
    r
}

/// The variant indices of the entities, in entity (draw) order.
pub open spec fn variant_indices_of(petals: Seq<PetalState>) -> Seq<u32> {
    petals.map_values(|p: PetalState| p.variant_index)
}

/// Packs the per-entity variant-index instance buffer: one little-endian
/// word per entity, in the entities' current (depth-sorted) order.
pub fn pack_variant_indices(petals: &Vec<PetalState>) -> (r: Vec<u8>)
    requires
        petals.len() <= 0x400_0000,
    ensures
        r@ == u32s_le(variant_indices_of(petals@)),
        r@.len() == 4 * petals@.len(),
{
    let mut indices: Vec<u32> = Vec::new();
    let mut i: usize = 0;
    while i < petals.len()
        invariant
            i <= petals.len() <= 0x400_0000,
            indices@ == variant_indices_of(petals@).take(i as int),
        decreases petals.len() - i,
    {
        indices.push(petals[i].variant_index);
        proof {
            assert(indices@ =~= variant_indices_of(petals@).take(i as int + 1));
        }
        i = i + 1;
    }
    proof {
        assert(variant_indices_of(petals@).take(petals@.len() as int) =~= variant_indices_of(
            petals@,
        ));
    }
    pack_u32s_le(&indices)
}

/// The packed layout of a `u32` uniform: the value as four little-endian
/// bytes, padded with twelve zero bytes to the sixteen-byte minimum
/// alignment of uniform buffers.
pub open spec fn uniform_u32_bytes(x: u32) -> Seq<u8> {
    spec_u32_to_le_bytes(x) + Seq::new(12, |i: int| 0u8)
}

/// Packs a `u32` uniform with its alignment padding.
pub fn pack_uniform_u32(x: u32) -> (r: Vec<u8>)
    ensures
        r@ == uniform_u32_bytes(x),
        r@.len() == 16,
{
    let mut r = u32_to_le_bytes(x);
    let mut i: usize = 0;
    while i < 12
        invariant
            i <= 12,
            r@.len() == 4 + i,
            r@ == spec_u32_to_le_bytes(x) + Seq::new(i as nat, |j: int| 0u8),
        decreases 12 - i,
    {
        r.push(0);
        proof {
            assert(r@ =~= spec_u32_to_le_bytes(x) + Seq::new(i as nat + 1, |j: int| 0u8));
        }
        i = i + 1;
    }
    proof {
        assert(r@ =~= uniform_u32_bytes(x));
    }
    r
}

} // verus!
