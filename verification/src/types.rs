use vstd::prelude::*;
use vstd::string::StringExecFns;

use crate::error::Error;
use crate::ident::{cache_identifier_string, id_chars, ProofKind};
use crate::params::{public_params, public_params_s};

verus! {

/// Padded byte length of one committed unit; fixes the graph node count.
#[derive(Clone, Copy, Debug, PartialEq, Eq, Structural)]
pub struct SectorSize(pub u64);

/// A byte count after padding to full nodes.
#[derive(Clone, Copy, Debug, PartialEq, Eq, Structural)]
pub struct PaddedBytesAmount(pub u64);

/// The byte count of user data that fits one padded unit: padding reserves
/// one byte in every 128.
#[derive(Clone, Copy, Debug, PartialEq, Eq, Structural)]
pub struct UnpaddedBytesAmount(pub u64);

/// Number of proof partitions of one replication proof.
#[derive(Clone, Copy, Debug, PartialEq, Eq, Structural)]
pub struct PoRepProofPartitions(pub u8);

/// Configuration of one replication: the sector size and the partition
/// count of its proof.
#[derive(Clone, Copy, Debug)]
pub struct PoRepConfig {
    pub sector_size: SectorSize,
    pub partitions: PoRepProofPartitions,
}

impl From<SectorSize> for PaddedBytesAmount {
    fn from(x: SectorSize) -> (r: Self) {
        PaddedBytesAmount(x.0)
    }
}

impl vstd::std_specs::convert::FromSpecImpl<SectorSize> for PaddedBytesAmount {
    open spec fn obeys_from_spec() -> bool {
        true
    }

    open spec fn from_spec(x: SectorSize) -> Self {
        PaddedBytesAmount(x.0)
    }
}

impl From<PaddedBytesAmount> for UnpaddedBytesAmount {
    fn from(x: PaddedBytesAmount) -> (r: Self) {
        UnpaddedBytesAmount(x.0 - x.0 / 128)
    }
}

impl vstd::std_specs::convert::FromSpecImpl<PaddedBytesAmount> for UnpaddedBytesAmount {
    open spec fn obeys_from_spec() -> bool {
        true
    }

    open spec fn from_spec(x: PaddedBytesAmount) -> Self {
        UnpaddedBytesAmount((x.0 - x.0 / 128) as u64)
    }
}

impl From<PoRepConfig> for PaddedBytesAmount {
    fn from(x: PoRepConfig) -> (r: Self) {
        PaddedBytesAmount(x.sector_size.0)
    }
}

impl vstd::std_specs::convert::FromSpecImpl<PoRepConfig> for PaddedBytesAmount {
    open spec fn obeys_from_spec() -> bool {
        true
    }

    open spec fn from_spec(x: PoRepConfig) -> Self {
        PaddedBytesAmount(x.sector_size.0)
    }
}

impl From<PoRepConfig> for UnpaddedBytesAmount {
    fn from(x: PoRepConfig) -> (r: Self) {
        UnpaddedBytesAmount(x.sector_size.0 - x.sector_size.0 / 128)
    }
}

impl vstd::std_specs::convert::FromSpecImpl<PoRepConfig> for UnpaddedBytesAmount {
    open spec fn obeys_from_spec() -> bool {
        true
    }

    open spec fn from_spec(x: PoRepConfig) -> Self {
        UnpaddedBytesAmount((x.sector_size.0 - x.sector_size.0 / 128) as u64)
    }
}

impl From<PoRepConfig> for PoRepProofPartitions {
    fn from(x: PoRepConfig) -> (r: Self) {
        x.partitions
    }
}

impl vstd::std_specs::convert::FromSpecImpl<PoRepConfig> for PoRepProofPartitions {
    open spec fn obeys_from_spec() -> bool {
        true
    }

    open spec fn from_spec(x: PoRepConfig) -> Self {
        x.partitions
    }
}

impl From<PoRepConfig> for SectorSize {
    fn from(cfg: PoRepConfig) -> (r: Self) {
        cfg.sector_size
    }
}

impl vstd::std_specs::convert::FromSpecImpl<PoRepConfig> for SectorSize {
    open spec fn obeys_from_spec() -> bool {
        true
    }

    open spec fn from_spec(cfg: PoRepConfig) -> Self {
        cfg.sector_size
    }
}

/// The identifier a replication configuration determines when it is valid.
pub open spec fn porep_id_chars(cfg: PoRepConfig) -> Seq<char> {
    id_chars(
        public_params_s(cfg.sector_size.0, cfg.partitions.0 as u64),
        ProofKind::StackedPorep,
    )
}

/// A replication configuration the parameter derivation accepts.
pub open spec fn porep_config_valid(cfg: PoRepConfig) -> bool {
    crate::graph::sector_size_supported(cfg.sector_size.0) && cfg.partitions.0 >= 1
}

impl PoRepConfig {
    /// Returns the parameter-cache identifier of this configuration's
    /// replication circuit.
    pub fn get_cache_identifier(&self) -> (r: Result<String, Error>)
        ensures
            porep_config_valid(*self) ==> (r matches Ok(s) && s@ == porep_id_chars(*self)),
            !porep_config_valid(*self) ==> (r matches Err(e) && e == Error::ConfigError),
    {
        match public_params(self.sector_size.0, self.partitions.0 as u64) {
            Ok(pp) => Ok(cache_identifier_string(&pp, ProofKind::StackedPorep)),
            Err(e) => Err(e),
        }
    }

    /// Path of the cached metadata artifact of this configuration.
    pub fn get_cache_metadata_path(&self) -> (r: Result<String, Error>)
        ensures
            porep_config_valid(*self) ==> (r matches Ok(s) && s@
                == ("/var/tmp/filecoin-proof-parameters/")@ + porep_id_chars(*self) + (".meta")@),
            !porep_config_valid(*self) ==> (r matches Err(e) && e == Error::ConfigError),
    {
        match self.get_cache_identifier() {
            Ok(id) => Ok(parameter_cache_metadata_path(&id)),
            Err(e) => Err(e),
        }
    }

    /// Path of the cached verifying-key artifact of this configuration.
    pub fn get_cache_verifying_key_path(&self) -> (r: Result<String, Error>)
        ensures
            porep_config_valid(*self) ==> (r matches Ok(s) && s@
                == ("/var/tmp/filecoin-proof-parameters/")@ + porep_id_chars(*self) + (".vk")@),
            !porep_config_valid(*self) ==> (r matches Err(e) && e == Error::ConfigError),
    {
        match self.get_cache_identifier() {
            Ok(id) => Ok(parameter_cache_verifying_key_path(&id)),
            Err(e) => Err(e),
        }
    }

    /// Path of the cached proving-parameters artifact of this
    /// configuration.
    pub fn get_cache_params_path(&self) -> (r: Result<String, Error>)
        ensures
            porep_config_valid(*self) ==> (r matches Ok(s) && s@
                == ("/var/tmp/filecoin-proof-parameters/")@ + porep_id_chars(*self) + (".params")@),
            !porep_config_valid(*self) ==> (r matches Err(e) && e == Error::ConfigError),
    {
        match self.get_cache_identifier() {
            Ok(id) => Ok(parameter_cache_params_path(&id)),
            Err(e) => Err(e),
        }
    }
}

/// Path of the metadata artifact of the given cache identifier.
pub fn parameter_cache_metadata_path(id: &String) -> (p: String)
    ensures
        p@ == ("/var/tmp/filecoin-proof-parameters/")@ + id@ + (".meta")@,
{
    String::from_str("/var/tmp/filecoin-proof-parameters/").concat(id.as_str()).concat(".meta")
}

/// Path of the proving-parameters artifact of the given cache identifier.
pub fn parameter_cache_params_path(id: &String) -> (p: String)
    ensures
        p@ == ("/var/tmp/filecoin-proof-parameters/")@ + id@ + (".params")@,
{
    String::from_str("/var/tmp/filecoin-proof-parameters/").concat(id.as_str()).concat(".params")
}

/// Path of the verifying-key artifact of the given cache identifier.
pub fn parameter_cache_verifying_key_path(id: &String) -> (p: String)
    ensures
        p@ == ("/var/tmp/filecoin-proof-parameters/")@ + id@ + (".vk")@,
{
    String::from_str("/var/tmp/filecoin-proof-parameters/").concat(id.as_str()).concat(".vk")
}

} // verus!
