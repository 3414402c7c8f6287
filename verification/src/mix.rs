use vstd::prelude::*;

verus! {

/// One round of 64-bit avalanche mixing, the primitive under the label
/// key-derivation step, the graph's edge sampler and the content digest.
/// Deterministic by construction: a pure function of its argument.
pub open spec fn mix_s(x: u64) -> u64 {
    let a = (x ^ (x >> 33)).wrapping_mul(0xFF51_AFD7_ED55_8CCD);
    let b = (a ^ (a >> 33)).wrapping_mul(0xC4CE_B9FE_1A85_EC53);
    b ^ (b >> 33)
}

pub fn mix(x: u64) -> (r: u64)
    ensures
        r == mix_s(x),
{
    let a = (x ^ (x >> 33)).wrapping_mul(0xFF51_AFD7_ED55_8CCD);
    let b = (a ^ (a >> 33)).wrapping_mul(0xC4CE_B9FE_1A85_EC53);
    b ^ (b >> 33)
}

/// Label derivation: one-way-style combination of the replica id, the layer
/// index, the node index, the folded parent labels, and the same node's label
/// in the predecessor layer (zero at the first layer). Domain separation comes
/// from feeding layer and node indices into distinct rounds.
pub open spec fn kdf_s(replica_id: u64, layer: u64, node: u64, parent_acc: u64, prev: u64) -> u64 {
    mix_s(mix_s(mix_s(mix_s(mix_s(replica_id) ^ layer) ^ node) ^ parent_acc) ^ prev)
}

pub fn kdf(replica_id: u64, layer: u64, node: u64, parent_acc: u64, prev: u64) -> (r: u64)
    ensures
        r == kdf_s(replica_id, layer, node, parent_acc, prev),
{
    mix(mix(mix(mix(mix(replica_id) ^ layer) ^ node) ^ parent_acc) ^ prev)
}

} // verus!
