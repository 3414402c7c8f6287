use vstd::prelude::*;

use crate::graph::is_pow2;
use crate::mix::{mix, mix_s};

verus! {

/// Parent hash of two adjacent commitment-tree nodes.
pub open spec fn node_hash_s(a: u64, b: u64) -> u64 {
    mix_s(mix_s(a) ^ b)
}

/// One level up: adjacent pairs combined.
pub open spec fn level_s(s: Seq<u64>) -> Seq<u64> {
    Seq::new((s.len() / 2) as nat, |i: int| node_hash_s(s[2 * i], s[2 * i + 1]))
}

/// Root of the full binary commitment tree over a power-of-two leaf count.
pub open spec fn root_s(s: Seq<u64>) -> u64
    decreases s.len(),
{
    if s.len() <= 1 {
        if s.len() == 1 {
            s[0]
        } else {
            0
        }
    } else {
        root_s(level_s(s))
    }
}

/// Computes the commitment-tree root over the given leaves.
pub fn merkle_root(leaves: &Vec<u64>) -> (r: u64)
    requires
        leaves@.len() >= 1,
        is_pow2(leaves@.len() as int),
    ensures
        r == root_s(leaves@),
{
    let mut cur: Vec<u64> = Vec::new();
    let mut i: usize = 0;
    while i < leaves.len()
        invariant
            i <= leaves@.len(),
            cur@ == leaves@.take(i as int),
        decreases leaves@.len() - i,
    {
        cur.push(leaves[i]);
        i = i + 1;
    }
    assert(cur@ =~= leaves@);
    while cur.len() > 1
        invariant
            cur@.len() >= 1,
            is_pow2(cur@.len() as int),
            root_s(cur@) == root_s(leaves@),
        decreases cur@.len(),
    {
        let len = cur.len();
        let m = len / 2;
        assert(cur@.len() % 2 == 0);
        let mut next: Vec<u64> = Vec::new();
        let mut j: usize = 0;
        while j < m
            invariant
                j <= m,
                len == cur@.len(),
                m == cur@.len() / 2,
                cur@.len() % 2 == 0,
                next@.len() == j,
                forall|t: int| 0 <= t < j ==> next@[t] == node_hash_s(cur@[2 * t], cur@[2 * t + 1]),
            decreases m - j,
        {
            let h = mix(mix(cur[2 * j]) ^ cur[2 * j + 1]);
            next.push(h);
            j = j + 1;
        }
        assert(next@ =~= level_s(cur@));
        cur = next;
    }
    cur[0]
}

} // verus!
