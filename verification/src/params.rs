use vstd::prelude::*;

use crate::error::Error;
use crate::graph::sector_size_supported;

verus! {

/// Default layer count of the stacked encoding.
pub const DEFAULT_LAYERS: u64 = 4;

/// Default challenge count per partition.
pub const DEFAULT_POREP_CHALLENGES: u64 = 2;

/// Closed set of supported hasher/tree shapes; the arithmetic domain of
/// commitments is tagged rather than type-parameterised.
#[derive(Clone, Copy, Debug, PartialEq, Eq, Structural)]
pub enum HasherKind {
    Poseidon,
    Sha256,
    Blake2s,
}

/// The structural shape of one circuit: hasher identity, graph shape (the
/// sector size fixes node count, and the public degrees are protocol
/// constants), layer and challenge counts, and partition count. A pure
/// function of sector size and partition count; immutable.
#[derive(Clone, Copy, Debug, PartialEq, Eq, Structural)]
pub struct PublicParams {
    pub hasher: HasherKind,
    pub sector_size: u64,
    pub layers: u64,
    pub challenges: u64,
    pub partitions: u64,
}

impl PublicParams {
    pub open spec fn wf(self) -> bool {
        &&& sector_size_supported(self.sector_size)
        &&& self.layers >= 1
        &&& self.challenges >= 1
        &&& self.partitions >= 1
    }
}

/// The parameters a supported (sector size, partition count) pair determines.
pub open spec fn public_params_s(sector_size: u64, partitions: u64) -> PublicParams {
    PublicParams {
        hasher: HasherKind::Poseidon,
        sector_size,
        layers: DEFAULT_LAYERS,
        challenges: DEFAULT_POREP_CHALLENGES,
        partitions,
    }
}

/// Derives the replication public parameters. Fails with `ConfigError` on a
/// sector size that is not a positive power-of-two count of whole nodes, or
/// on a zero partition count.
pub fn public_params(sector_size: u64, partitions: u64) -> (r: Result<PublicParams, Error>)
    ensures
        sector_size_supported(sector_size) && partitions >= 1 ==> r == Result::<
            PublicParams,
            Error,
        >::Ok(public_params_s(sector_size, partitions)),
        !(sector_size_supported(sector_size) && partitions >= 1) ==> r == Result::<
            PublicParams,
            Error,
        >::Err(Error::ConfigError),
        r matches Ok(pp) ==> pp.wf(),
{
    if partitions == 0 {
        return Err(Error::ConfigError);
    }
    match crate::graph::build_graph(sector_size) {
        Ok(_) => Ok(
            PublicParams {
                hasher: HasherKind::Poseidon,
                sector_size,
                layers: DEFAULT_LAYERS,
                challenges: DEFAULT_POREP_CHALLENGES,
                partitions,
            },
        ),
        Err(e) => Err(e),
    }
}

} // verus!
