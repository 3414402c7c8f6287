use vstd::prelude::*;

use crate::error::Error;
use crate::graph::{parent_s, Graph};
use crate::mix::{kdf, kdf_s, mix, mix_s};

verus! {

/// Starting value of the parent-label fold.
pub const FOLD_SEED: u64 = 0x0F0E_1D2C_3B4A_5968;

/// Fold of the labels of the first `j` parents of node `i`, read from the
/// predecessor layer `prev`.
pub open spec fn parent_fold_s(g: Graph, prev: Seq<u64>, i: int, j: int) -> u64
    decreases j,
{
    if j <= 0 {
        FOLD_SEED
    } else {
        mix_s(parent_fold_s(g, prev, i, j - 1) ^ prev[parent_s(g, i, j - 1)])
    }
}

/// The first layer: labels derived from the replica id and the node index
/// alone, so extraction can regenerate every layer without the sector data.
pub open spec fn first_layer_s(g: Graph, replica_id: u64) -> Seq<u64> {
    Seq::new(g.nodes as nat, |i: int| kdf_s(replica_id, 1, i as u64, 0, 0))
}

/// Layer `k` derived from a predecessor layer: each label folds in all
/// graph-parent labels of the predecessor and the same node's predecessor
/// label, domain-separated by layer and node index.
pub open spec fn step_layer_s(g: Graph, replica_id: u64, k: u64, prev: Seq<u64>) -> Seq<u64> {
    Seq::new(
        g.nodes as nat,
        |i: int|
            kdf_s(replica_id, k, i as u64, parent_fold_s(g, prev, i, g.degree()), prev[i]),
    )
}

/// Labels of layer `k` (1-based) of the stacked encoding.
pub open spec fn layer_s(g: Graph, replica_id: u64, k: u64) -> Seq<u64>
    decreases k,
{
    if k <= 1 {
        first_layer_s(g, replica_id)
    } else {
        step_layer_s(g, replica_id, k, layer_s(g, replica_id, (k - 1) as u64))
    }
}

/// A predecessor layer is usable only when it is present and fully
/// persisted: one label for every node of the graph.
pub open spec fn predecessor_complete(g: Graph, predecessor: Option<&Vec<u64>>) -> bool {
    predecessor matches Some(p) && p@.len() == g.nodes
}

/// Derives one layer's labels. Layer 1 needs no predecessor; any later
/// layer fails with `MissingPredecessorLabel` unless the whole predecessor
/// layer is available, so layer `k + 1` cannot proceed before layer `k` is
/// fully computed.
pub fn encode_layer(
    g: &Graph,
    layer_index: u64,
    replica_id: u64,
    predecessor: Option<&Vec<u64>>,
) -> (r: Result<Vec<u64>, Error>)
    requires
        g.wf(),
        layer_index >= 1,
    ensures
        layer_index == 1 ==> (r matches Ok(v) && v@ == first_layer_s(*g, replica_id)),
        layer_index > 1 && predecessor_complete(*g, predecessor) ==> (r matches Ok(v) && v@
            == step_layer_s(*g, replica_id, layer_index, predecessor->Some_0@)),
        layer_index > 1 && !predecessor_complete(*g, predecessor) ==> r == Result::<
            Vec<u64>,
            Error,
        >::Err(Error::MissingPredecessorLabel),
        r matches Ok(v) ==> v@.len() == g.nodes,
{
    let n = g.nodes;
    if layer_index == 1 {
        let mut out: Vec<u64> = Vec::new();
        let mut i: usize = 0;
        while i < n
            invariant
                i <= n,
                n == g.nodes,
                out@.len() == i,
                forall|t: int| 0 <= t < i ==> out@[t] == kdf_s(replica_id, 1, t as u64, 0, 0),
            decreases n - i,
        {
            let lab = kdf(replica_id, 1, i as u64, 0, 0);
            out.push(lab);
            i = i + 1;
        }
        assert(out@ =~= first_layer_s(*g, replica_id));
        Ok(out)
    } else {
        match predecessor {
            None => Err(Error::MissingPredecessorLabel),
            Some(p) => {
                if p.len() != n {
                    return Err(Error::MissingPredecessorLabel);
                }
                let degree = crate::graph::BASE_DEGREE + crate::graph::EXPANSION_DEGREE;
                let mut out: Vec<u64> = Vec::new();
                let mut i: usize = 0;
                while i < n
                    invariant
                        i <= n,
                        n == g.nodes,
                        g.wf(),
                        p@.len() == n,
                        degree == g.degree(),
                        out@.len() == i,
                        forall|t: int|
                            0 <= t < i ==> out@[t] == kdf_s(
                                replica_id,
                                layer_index,
                                t as u64,
                                parent_fold_s(*g, p@, t, g.degree()),
                                p@[t],
                            ),
                    decreases n - i,
                {
                    let mut acc: u64 = FOLD_SEED;
                    let mut j: u64 = 0;
                    while j < degree
                        invariant
                            j <= degree,
                            degree == g.degree(),
                            g.wf(),
                            i < n,
                            n == g.nodes,
                            p@.len() == n,
                            acc == parent_fold_s(*g, p@, i as int, j as int),
                        decreases degree - j,
                    {
                        let pi = g.parent(i, j);
                        acc = mix(acc ^ p[pi]);
                        j = j + 1;
                    }
                    let lab = kdf(replica_id, layer_index, i as u64, acc, p[i]);
                    out.push(lab);
                    i = i + 1;
                }
                assert(out@ =~= step_layer_s(*g, replica_id, layer_index, p@));
                Ok(out)
            },
        }
    }
}

} // verus!
