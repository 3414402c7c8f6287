use vstd::prelude::*;

use crate::bytes::{
    bytes_to_words, bytes_to_words_s, lemma_bytes_words_bytes, lemma_words_bytes_words,
    words_to_bytes, words_to_bytes_s,
};
use crate::error::Error;
use crate::graph::{graph_of, Graph, NODE_SIZE};
use crate::layers::{encode_layer, layer_s};
use crate::merkle::{merkle_root, root_s};
use crate::params::PublicParams;

verus! {

/// Public commitment bundle: root over the original data and root over the
/// final replica.
pub struct Tau {
    pub comm_d: u64,
    pub comm_r: u64,
}

/// Prover-private roots needed to reopen commitment paths later: one root
/// per layer of labels.
pub struct PersistentAux {
    pub layer_roots: Vec<u64>,
}

/// Locator of one on-disk layer/tree store; the persistence engine behind
/// it is an external collaborator, so the library holds only what its logic
/// reads: a directory path and a store id.
pub struct StoreConfig {
    pub path: String,
    pub id: String,
}

/// Prover-private per-layer label stores, retained so challenge openings
/// need no recomputation; discardable once proof construction completes.
pub struct TemporaryAux {
    pub layers: Vec<Vec<u64>>,
    pub config: StoreConfig,
}

/// An already-built commitment tree over the original data, reusable so
/// replication need not rebuild it.
pub struct DataTree {
    pub leaf_count: usize,
    pub root: u64,
}

/// The stacked-graph replication and extraction engine.
pub struct StackedDrg {}

/// The replica's node words: the data words encoded against the final
/// layer's labels.
pub open spec fn replica_words_s(pp: PublicParams, replica_id: u64, data: Seq<u8>) -> Seq<u64> {
    let g = graph_of(pp.sector_size);
    let labels = layer_s(g, replica_id, pp.layers);
    Seq::new(g.nodes as nat, |i: int| bytes_to_words_s(data)[i] ^ labels[i])
}

/// The replica byte image replication writes out.
pub open spec fn replica_bytes_s(pp: PublicParams, replica_id: u64, data: Seq<u8>) -> Seq<u8> {
    words_to_bytes_s(replica_words_s(pp, replica_id, data))
}

/// The data-root commitment: the precomputed tree's root when one is
/// supplied, else the root computed over the data words.
pub open spec fn comm_d_s(data: Seq<u8>, data_tree: Option<&DataTree>) -> u64 {
    match data_tree {
        Some(t) => t.root,
        None => root_s(bytes_to_words_s(data)),
    }
}

/// The replica-root commitment.
pub open spec fn comm_r_s(pp: PublicParams, replica_id: u64, data: Seq<u8>) -> u64 {
    root_s(replica_words_s(pp, replica_id, data))
}

/// The byte image extraction recovers from a replica image: replica words
/// decoded against the regenerated final layer's labels.
pub open spec fn extracted_s(pp: PublicParams, replica_id: u64, replica: Seq<u8>) -> Seq<u8> {
    let g = graph_of(pp.sector_size);
    let labels = layer_s(g, replica_id, pp.layers);
    words_to_bytes_s(Seq::new(g.nodes as nat, |i: int| bytes_to_words_s(replica)[i] ^ labels[i]))
}

/// A supplied data tree is usable only over exactly one leaf per node.
pub open spec fn data_tree_fits(pp: PublicParams, data_tree: Option<&DataTree>) -> bool {
    data_tree matches Some(t) ==> t.leaf_count == graph_of(pp.sector_size).nodes
}

impl StackedDrg {
    /// Replicates one sector: derives every layer strictly in order, builds
    /// the data and replica commitments, and returns the public `Tau`, the
    /// prover-private aux bundles, and the replica byte image for the
    /// caller to persist at the replica path.
    ///
    /// The result is a pure function of the arguments, so two independent
    /// replications of the same inputs agree bit for bit.
    pub fn replicate(
        pp: &PublicParams,
        replica_id: u64,
        data: &Vec<u8>,
        data_tree: Option<&DataTree>,
        config: StoreConfig,
    ) -> (r: Result<(Tau, (PersistentAux, TemporaryAux), Vec<u8>), Error>)
        requires
            pp.wf(),
        ensures
            data@.len() == pp.sector_size && data_tree_fits(*pp, data_tree) ==> (r matches Ok(out)
                && out.0.comm_d == comm_d_s(data@, data_tree) && out.0.comm_r == comm_r_s(
                *pp,
                replica_id,
                data@,
            ) && out.2@ == replica_bytes_s(*pp, replica_id, data@) && out.1.0.layer_roots@.len()
                == pp.layers && (forall|k: int|
                0 <= k < pp.layers ==> out.1.0.layer_roots@[k] == root_s(
                    layer_s(graph_of(pp.sector_size), replica_id, (k + 1) as u64),
                )) && out.1.1.layers@.len() == pp.layers && (forall|k: int|
                0 <= k < pp.layers ==> out.1.1.layers@[k]@ == layer_s(
                    graph_of(pp.sector_size),
                    replica_id,
                    (k + 1) as u64,
                ))),
            !(data@.len() == pp.sector_size && data_tree_fits(*pp, data_tree)) ==> (r matches Err(e)
                && e == Error::ConfigError),
    {
        let g = match crate::graph::build_graph(pp.sector_size) {
            Ok(g) => g,
            Err(e) => { return Err(e) },
        };
        if (data.len() as u64) != pp.sector_size {
            return Err(Error::ConfigError);
        }
        if let Some(t) = data_tree {
            if t.leaf_count != g.nodes {
                return Err(Error::ConfigError);
            }
        }
        assert(data@.len() % 8 == 0) by {
            assert(NODE_SIZE == 8);
        }
        let words = bytes_to_words(data);
        assert(words@.len() == g.nodes);

        // Layers 1..L, strictly in order; each later layer consumes the
        // fully computed predecessor.
        let mut layer_stores: Vec<Vec<u64>> = Vec::new();
        let first = match encode_layer(&g, 1, replica_id, None) {
            Ok(v) => v,
            Err(e) => { return Err(e) },
        };
        let mut cur = first;
        let mut layer_roots: Vec<u64> = Vec::new();
        let root1 = merkle_root(&cur);
        layer_roots.push(root1);
        let mut k: u64 = 1;
        while k < pp.layers
            invariant
                1 <= k <= pp.layers,
                g == graph_of(pp.sector_size),
                g.wf(),
                cur@ == layer_s(g, replica_id, k),
                cur@.len() == g.nodes,
                layer_stores@.len() == k - 1,
                forall|t: int|
                    0 <= t < k - 1 ==> layer_stores@[t]@ == layer_s(g, replica_id, (t + 1) as u64),
                layer_roots@.len() == k,
                forall|t: int|
                    0 <= t < k ==> layer_roots@[t] == root_s(
                        layer_s(g, replica_id, (t + 1) as u64),
                    ),
            decreases pp.layers - k,
        {
            let next = match encode_layer(&g, k + 1, replica_id, Some(&cur)) {
                Ok(v) => v,
                Err(e) => {
                    proof {
                        assert(false);
                    }
                    return Err(e);
                },
            };
            layer_stores.push(cur);
            cur = next;
            let rk = merkle_root(&cur);
            layer_roots.push(rk);
            k = k + 1;
        }
        let comm_d = match data_tree {
            Some(t) => t.root,
            None => merkle_root(&words),
        };
        let mut replica_words: Vec<u64> = Vec::new();
        let mut i: usize = 0;
        while i < words.len()
            invariant
                i <= words@.len(),
                words@.len() == g.nodes,
                cur@.len() == g.nodes,
                replica_words@.len() == i,
                forall|t: int| 0 <= t < i ==> replica_words@[t] == words@[t] ^ cur@[t],
            decreases words@.len() - i,
        {
            replica_words.push(words[i] ^ cur[i]);
            i = i + 1;
        }
        assert(replica_words@ =~= replica_words_s(*pp, replica_id, data@));
        let comm_r = merkle_root(&replica_words);
        layer_stores.push(cur);
        assert(layer_stores@.len() == pp.layers);
        assert(replica_words@.len() * 8 <= usize::MAX);
        let replica = words_to_bytes(&replica_words);
        Ok(
            (
                Tau { comm_d, comm_r },
                (
                    PersistentAux { layer_roots },
                    TemporaryAux { layers: layer_stores, config },
                ),
                replica,
            ),
        )
    }

    /// Extracts the original data from a replica image: regenerates every
    /// layer's labels forward from the replica id (none is assumed
    /// retained), then inverts the final encoding step.
    pub fn extract_all(
        pp: &PublicParams,
        replica_id: u64,
        data: &Vec<u8>,
        config: Option<StoreConfig>,
    ) -> (r: Result<Vec<u8>, Error>)
        requires
            pp.wf(),
            config.is_some(),
        ensures
            data@.len() == pp.sector_size ==> (r matches Ok(out) && out@ == extracted_s(
                *pp,
                replica_id,
                data@,
            )),
            data@.len() != pp.sector_size ==> (r matches Err(e) && e == Error::ConfigError),
    {
        let g = match crate::graph::build_graph(pp.sector_size) {
            Ok(g) => g,
            Err(e) => { return Err(e) },
        };
        if (data.len() as u64) != pp.sector_size {
            return Err(Error::ConfigError);
        }
        assert(data@.len() % 8 == 0) by {
            assert(NODE_SIZE == 8);
        }
        let words = bytes_to_words(data);
        let first = match encode_layer(&g, 1, replica_id, None) {
            Ok(v) => v,
            Err(e) => { return Err(e) },
        };
        let mut cur = first;
        let mut k: u64 = 1;
        while k < pp.layers
            invariant
                1 <= k <= pp.layers,
                g == graph_of(pp.sector_size),
                g.wf(),
                cur@ == layer_s(g, replica_id, k),
                cur@.len() == g.nodes,
            decreases pp.layers - k,
        {
            let next = match encode_layer(&g, k + 1, replica_id, Some(&cur)) {
                Ok(v) => v,
                Err(e) => {
                    proof {
                        assert(false);
                    }
                    return Err(e);
                },
            };
            cur = next;
            k = k + 1;
        }
        let mut out_words: Vec<u64> = Vec::new();
        let mut i: usize = 0;
        while i < words.len()
            invariant
                i <= words@.len(),
                words@.len() == g.nodes,
                cur@.len() == g.nodes,
                out_words@.len() == i,
                forall|t: int| 0 <= t < i ==> out_words@[t] == words@[t] ^ cur@[t],
            decreases words@.len() - i,
        {
            out_words.push(words[i] ^ cur[i]);
            i = i + 1;
        }
        assert(out_words@.len() * 8 <= usize::MAX);
        let out = words_to_bytes(&out_words);
        proof {
            assert(out_words@ =~= Seq::new(
                g.nodes as nat,
                |i: int| bytes_to_words_s(data@)[i] ^ layer_s(g, replica_id, pp.layers)[i],
            ));
        }
        Ok(out)
    }

    /// Single-node extraction is an explicit non-goal: a node's label
    /// depends on a graph neighbourhood spanning much of the index range,
    /// so partial extraction would need a distinct proof path not provided
    /// here.
    pub fn extract(
        _pp: &PublicParams,
        _replica_id: u64,
        _data: &Vec<u8>,
        _node: usize,
        _config: Option<StoreConfig>,
    ) -> (r: Result<Vec<u8>, Error>)
        ensures
            r == Result::<Vec<u8>, Error>::Err(Error::Unsupported),
    {
        Err(Error::Unsupported)
    }
}

/// Round trip: extracting a freshly produced replica image recovers the
/// original data exactly, for every supported shape and payload.
pub proof fn lemma_replicate_extract_round_trip(pp: PublicParams, replica_id: u64, data: Seq<u8>)
    requires
        pp.wf(),
        data.len() == pp.sector_size,
    ensures
        extracted_s(pp, replica_id, replica_bytes_s(pp, replica_id, data)) == data,
{
    let g = graph_of(pp.sector_size);
    let labels = layer_s(g, replica_id, pp.layers);
    let dw = bytes_to_words_s(data);
    let rw = replica_words_s(pp, replica_id, data);
    lemma_words_bytes_words(rw);
    assert(bytes_to_words_s(replica_bytes_s(pp, replica_id, data)) == rw);
    assert(forall|a: u64, b: u64| (a ^ b) ^ b == a) by (bit_vector);
    assert(Seq::new(
        g.nodes as nat,
        |i: int| bytes_to_words_s(replica_bytes_s(pp, replica_id, data))[i] ^ labels[i],
    ) =~= dw);
    lemma_bytes_words_bytes(data);
    assert(words_to_bytes_s(dw) =~= data);
}

} // verus!
