use vstd::prelude::*;

use crate::error::Error;
use crate::mix::{mix, mix_s};

verus! {

/// Width of one graph node in bytes: each node carries one 64-bit word.
pub const NODE_SIZE: u64 = 8;

/// Public seed keying edge generation; part of the protocol definition.
pub const GRAPH_SEED: u64 = 0x5AFE_C0DE_D00D_FEED;

/// In-degree of the depth-robust base component (edges to earlier nodes in
/// the same index range).
pub const BASE_DEGREE: u64 = 6;

/// In-degree of the expander component (edges across the whole index range).
pub const EXPANSION_DEGREE: u64 = 8;

/// The per-sector dependency graph: a depth-robust base component whose
/// parents always point at strictly earlier nodes, plus an expander
/// component mixing across the whole range. Edge generation is a pure
/// function of the public seed and the node index, so the graph is
/// bit-reproducible.
pub struct Graph {
    pub nodes: usize,
    pub seed: u64,
}

impl Graph {
    /// A usable graph has at least one node and a power-of-two node count,
    /// so commitment trees over its layers are full binary trees.
    pub open spec fn wf(self) -> bool {
        self.nodes >= 1 && is_pow2(self.nodes as int)
    }

    /// Total number of parents of any node.
    pub open spec fn degree(self) -> int {
        BASE_DEGREE + EXPANSION_DEGREE
    }
}

/// Powers of two, the admissible node counts.
pub open spec fn is_pow2(n: int) -> bool
    decreases n,
{
    if n <= 0 {
        false
    } else if n == 1 {
        true
    } else {
        n % 2 == 0 && is_pow2(n / 2)
    }
}

/// The `j`-th parent of node `i`: for `j` below the base degree a node
/// strictly earlier than `i` (node 0 maps to itself), otherwise any node of
/// the graph. Keyed by the seed; deterministic.
pub open spec fn parent_s(g: Graph, i: int, j: int) -> int
    recommends
        g.wf(),
        0 <= i < g.nodes,
        0 <= j < g.degree(),
{
    let raw = mix_s(mix_s(g.seed ^ (i as u64)) ^ (0x9E0F_u64 ^ (j as u64)));
    if j < BASE_DEGREE {
        if i == 0 {
            0
        } else {
            (raw as int) % i
        }
    } else {
        (raw as int) % (g.nodes as int)
    }
}

/// Builds the graph for one sector. Fails with `ConfigError` when the byte
/// count is not a positive power-of-two multiple of the node size or does
/// not fit the address space.
pub fn build_graph(sector_size: u64) -> (r: Result<Graph, Error>)
    ensures
        sector_size_supported(sector_size) ==> (r matches Ok(g) && g == graph_of(sector_size)),
        !sector_size_supported(sector_size) ==> r == Result::<Graph, Error>::Err(Error::ConfigError),
        r matches Ok(g) ==> g.wf(),
{
    if sector_size == 0 || sector_size % NODE_SIZE != 0 || sector_size > (usize::MAX as u64) {
        return Err(Error::ConfigError);
    }
    let nodes_wide = sector_size / NODE_SIZE;
    let nodes: usize = nodes_wide as usize;
    if !check_pow2(nodes) {
        return Err(Error::ConfigError);
    }
    Ok(Graph { nodes, seed: GRAPH_SEED })
}

/// A sector size the graph model accepts: a positive power-of-two count of
/// whole nodes that fits the machine's address space.
pub open spec fn sector_size_supported(sector_size: u64) -> bool {
    &&& sector_size > 0
    &&& sector_size % NODE_SIZE == 0
    &&& sector_size <= usize::MAX
    &&& is_pow2((sector_size / NODE_SIZE) as int)
}

/// The graph a supported sector size determines.
pub open spec fn graph_of(sector_size: u64) -> Graph {
    Graph { nodes: (sector_size / NODE_SIZE) as usize, seed: GRAPH_SEED }
}

fn check_pow2(n: usize) -> (r: bool)
    ensures
        r == is_pow2(n as int),
{
    if n == 0 {
        return false;
    }
    let mut m: usize = n;
    while m > 1
        invariant
            m >= 1,
            is_pow2(n as int) == is_pow2(m as int),
        decreases m,
    {
        if m % 2 == 1 {
            return false;
        }
        m = m / 2;
    }
    true
}

impl Graph {
    /// Computes the `j`-th parent of node `i`; always a valid node index.
    pub fn parent(&self, i: usize, j: u64) -> (p: usize)
        requires
            self.wf(),
            i < self.nodes,
            0 <= j < self.degree(),
        ensures
            p as int == parent_s(*self, i as int, j as int),
            p < self.nodes,
    {
        let raw = mix(mix(self.seed ^ (i as u64)) ^ (0x9E0F_u64 ^ j));
        if j < BASE_DEGREE {
            if i == 0 {
                0
            } else {
                (raw % (i as u64)) as usize
            }
        } else {
            (raw % (self.nodes as u64)) as usize
        }
    }
}

} // verus!
