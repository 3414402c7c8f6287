use vstd::prelude::*;

use crate::error::Error;
use crate::graph::sector_size_supported;
use crate::ident::ProofKind;
use crate::params::{public_params, public_params_s, HasherKind, PublicParams};
use crate::store::{
    blank_circuit, ensure_metadata, ensure_parameters, ensure_verifying_key, find_s, ArtifactKind,
    CircuitBackend, CircuitKey, LockTable, ParameterStore,
};
use crate::types::{PaddedBytesAmount, PoRepConfig, PoRepProofPartitions, SectorSize};

verus! {

pub const SECTOR_SIZE_2_KIB: u64 = 2048;

pub const SECTOR_SIZE_8_MIB: u64 = 8 * 1024 * 1024;

pub const SECTOR_SIZE_512_MIB: u64 = 512 * 1024 * 1024;

pub const SECTOR_SIZE_32_GIB: u64 = 32 * 1024 * 1024 * 1024;

pub const ELECTION_POST_CHALLENGE_COUNT: u64 = 66;

pub const WINNING_POST_CHALLENGE_COUNT: u64 = 66;

pub const WINNING_POST_SECTOR_COUNT: u64 = 1;

pub const WINDOW_POST_CHALLENGE_COUNT: u64 = 10;

/// The proof-of-spacetime variants the warmer drives.
#[derive(Clone, Copy, Debug, PartialEq, Eq, Structural)]
pub enum PoStType {
    Election,
    Winning,
    Window,
}

/// Configuration of one proof-of-spacetime setup.
#[derive(Clone, Copy, Debug)]
pub struct PoStConfig {
    pub sector_size: SectorSize,
    pub challenge_count: u64,
    pub sector_count: u64,
    pub typ: PoStType,
    pub priority: bool,
}

impl PoStConfig {
    pub fn padded_sector_size(&self) -> (r: PaddedBytesAmount)
        ensures
            r.0 == self.sector_size.0,
    {
        PaddedBytesAmount(self.sector_size.0)
    }
}

/// The published partition preset of each supported sector size.
pub open spec fn porep_partitions_s(sector_size: u64) -> Option<u8> {
    if sector_size == SECTOR_SIZE_2_KIB {
        Some(1u8)
    } else if sector_size == SECTOR_SIZE_8_MIB {
        Some(1u8)
    } else if sector_size == SECTOR_SIZE_512_MIB {
        Some(1u8)
    } else if sector_size == SECTOR_SIZE_32_GIB {
        Some(10u8)
    } else {
        None
    }
}

/// Looks up the published partition preset of a sector size.
pub fn porep_partitions(sector_size: u64) -> (r: Option<u8>)
    ensures
        r == porep_partitions_s(sector_size),
{
    if sector_size == SECTOR_SIZE_2_KIB {
        Some(1)
    } else if sector_size == SECTOR_SIZE_8_MIB {
        Some(1)
    } else if sector_size == SECTOR_SIZE_512_MIB {
        Some(1)
    } else if sector_size == SECTOR_SIZE_32_GIB {
        Some(10)
    } else {
        None
    }
}

/// The published window sector-count preset of each supported sector size.
pub open spec fn window_post_sector_count_s(sector_size: u64) -> Option<u64> {
    if sector_size == SECTOR_SIZE_2_KIB {
        Some(2u64)
    } else if sector_size == SECTOR_SIZE_8_MIB {
        Some(2u64)
    } else if sector_size == SECTOR_SIZE_512_MIB {
        Some(2u64)
    } else if sector_size == SECTOR_SIZE_32_GIB {
        Some(2349u64)
    } else {
        None
    }
}

/// Looks up the published window sector-count preset of a sector size.
pub fn window_post_sector_count(sector_size: u64) -> (r: Option<u64>)
    ensures
        r == window_post_sector_count_s(sector_size),
{
    if sector_size == SECTOR_SIZE_2_KIB {
        Some(2)
    } else if sector_size == SECTOR_SIZE_8_MIB {
        Some(2)
    } else if sector_size == SECTOR_SIZE_512_MIB {
        Some(2)
    } else if sector_size == SECTOR_SIZE_32_GIB {
        Some(2349)
    } else {
        None
    }
}

/// The fixed published sector-size list, the warmer's default input.
pub fn published_sector_sizes() -> (r: Vec<u64>)
    ensures
        r@ =~= seq![SECTOR_SIZE_2_KIB, SECTOR_SIZE_8_MIB, SECTOR_SIZE_512_MIB, SECTOR_SIZE_32_GIB],
{
    let mut r: Vec<u64> = Vec::new();
    r.push(SECTOR_SIZE_2_KIB);
    r.push(SECTOR_SIZE_8_MIB);
    r.push(SECTOR_SIZE_512_MIB);
    r.push(SECTOR_SIZE_32_GIB);
    r
}

/// The circuit shape of one proof-of-spacetime setup: a single stage over
/// the sector's graph, with the configured challenge count and one
/// partition per sector of the setup.
pub open spec fn post_params_s(cfg: PoStConfig) -> PublicParams {
    PublicParams {
        hasher: HasherKind::Poseidon,
        sector_size: cfg.sector_size.0,
        layers: 1,
        challenges: cfg.challenge_count,
        partitions: cfg.sector_count,
    }
}

/// A proof-of-spacetime setup the parameter derivation accepts.
pub open spec fn post_config_valid(cfg: PoStConfig) -> bool {
    sector_size_supported(cfg.sector_size.0) && cfg.challenge_count >= 1 && cfg.sector_count >= 1
}

fn post_public_params(cfg: &PoStConfig) -> (r: Result<PublicParams, Error>)
    ensures
        post_config_valid(*cfg) ==> r == Result::<PublicParams, Error>::Ok(post_params_s(*cfg)),
        !post_config_valid(*cfg) ==> r == Result::<PublicParams, Error>::Err(Error::ConfigError),
{
    if cfg.challenge_count == 0 || cfg.sector_count == 0 {
        return Err(Error::ConfigError);
    }
    match crate::graph::build_graph(cfg.sector_size.0) {
        Ok(_) => Ok(
            PublicParams {
                hasher: HasherKind::Poseidon,
                sector_size: cfg.sector_size.0,
                layers: 1,
                challenges: cfg.challenge_count,
                partitions: cfg.sector_count,
            },
        ),
        Err(e) => Err(e),
    }
}

/// Derives the election proof-of-spacetime circuit shape.
pub fn election_post_public_params(cfg: &PoStConfig) -> (r: Result<PublicParams, Error>)
    ensures
        post_config_valid(*cfg) ==> r == Result::<PublicParams, Error>::Ok(post_params_s(*cfg)),
        !post_config_valid(*cfg) ==> r == Result::<PublicParams, Error>::Err(Error::ConfigError),
{
    post_public_params(cfg)
}

/// Derives the winning proof-of-spacetime circuit shape.
pub fn winning_post_public_params(cfg: &PoStConfig) -> (r: Result<PublicParams, Error>)
    ensures
        post_config_valid(*cfg) ==> r == Result::<PublicParams, Error>::Ok(post_params_s(*cfg)),
        !post_config_valid(*cfg) ==> r == Result::<PublicParams, Error>::Err(Error::ConfigError),
{
    post_public_params(cfg)
}

/// Derives the window proof-of-spacetime circuit shape.
pub fn window_post_public_params(cfg: &PoStConfig) -> (r: Result<PublicParams, Error>)
    ensures
        post_config_valid(*cfg) ==> r == Result::<PublicParams, Error>::Ok(post_params_s(*cfg)),
        !post_config_valid(*cfg) ==> r == Result::<PublicParams, Error>::Err(Error::ConfigError),
{
    post_public_params(cfg)
}

/// The cache identity of a replication configuration's circuit.
pub open spec fn porep_key_s(cfg: PoRepConfig) -> CircuitKey {
    CircuitKey {
        params: public_params_s(cfg.sector_size.0, cfg.partitions.0 as u64),
        kind: ProofKind::StackedPorep,
    }
}

/// The cache identity of a proof-of-spacetime setup's circuit under one
/// variant.
pub open spec fn post_key_s(cfg: PoStConfig, kind: ProofKind) -> CircuitKey {
    CircuitKey { params: post_params_s(cfg), kind }
}

/// All three artifact kinds of one key hold valid cached copies.
pub open spec fn all_artifacts_valid(s: ParameterStore, key: CircuitKey) -> bool {
    forall|kd: ArtifactKind| s.has_valid(key, kd)
}

/// What any warm-up run leaves behind for its own key: each artifact
/// record either survives unchanged or is newly valid; a failed run never
/// leaves a slot worse than it found it.
pub open spec fn slots_kept_or_valid(
    pre: ParameterStore,
    post: ParameterStore,
    key: CircuitKey,
) -> bool {
    forall|kd: ArtifactKind|
        #![auto]
        find_s(post.records(), key, kd) == find_s(pre.records(), key, kd) || post.has_valid(
            key,
            kd,
        )
}

/// Artifacts of the key that were already valid keep their records
/// untouched: a valid cached copy is reused, never regenerated.
pub open spec fn valid_slots_kept(
    pre: ParameterStore,
    post: ParameterStore,
    key: CircuitKey,
) -> bool {
    forall|kd: ArtifactKind|
        #![auto]
        pre.has_valid(key, kd) ==> find_s(post.records(), key, kd) == find_s(
            pre.records(),
            key,
            kd,
        )
}

/// A step that touches only `frame_key` leaves every artifact and the
/// validity of any other key as they were.
proof fn lemma_key_frame(
    pre: ParameterStore,
    post: ParameterStore,
    frame_key: CircuitKey,
    key: CircuitKey,
)
    requires
        key != frame_key,
        forall|k2: CircuitKey, kd2: ArtifactKind|
            k2 != frame_key ==> find_s(post.records(), k2, kd2) == find_s(pre.records(), k2, kd2),
    ensures
        forall|kd: ArtifactKind| #![auto] post.has_valid(key, kd) == pre.has_valid(key, kd),
        all_artifacts_valid(post, key) == all_artifacts_valid(pre, key),
{
    assert forall|kd: ArtifactKind| #![auto]
        post.has_valid(key, kd) == pre.has_valid(key, kd) by {
        assert(find_s(post.records(), key, kd) == find_s(pre.records(), key, kd));
    }
}

/// Checks and populates the replication parameter cache of one
/// configuration: metadata, proving parameters and verifying key, each
/// derived from a fresh blank circuit only where no valid copy exists.
/// With all three artifacts already valid the call succeeds and leaves
/// the store untouched.
pub fn cache_porep_params<B: CircuitBackend>(
    store: &mut ParameterStore,
    locks: &mut LockTable,
    backend: &mut B,
    porep_config: PoRepConfig,
) -> (r: Result<(), Error>)
    requires
        forall|k: CircuitKey| !old(locks).holds(k),
    ensures
        forall|k: CircuitKey| final(locks).holds(k) == old(locks).holds(k),
        crate::types::porep_config_valid(porep_config) ==> match r {
            Ok(_) => all_artifacts_valid(*final(store), porep_key_s(porep_config)),
            Err(e) => e == Error::GenerationError,
        },
        crate::types::porep_config_valid(porep_config) && all_artifacts_valid(
            *old(store),
            porep_key_s(porep_config),
        ) ==> r == Result::<(), Error>::Ok(()) && *final(store) == *old(store),
        crate::types::porep_config_valid(porep_config) ==> slots_kept_or_valid(
            *old(store),
            *final(store),
            porep_key_s(porep_config),
        ) && valid_slots_kept(*old(store), *final(store), porep_key_s(porep_config)),
        !crate::types::porep_config_valid(porep_config) ==> r == Result::<(), Error>::Err(
            Error::ConfigError,
        ) && *final(store) == *old(store),
        forall|k2: CircuitKey, kd2: ArtifactKind|
            k2 != porep_key_s(porep_config) ==> find_s(final(store).records(), k2, kd2) == find_s(
                old(store).records(),
                k2,
                kd2,
            ),
{
    let pp = match public_params(
        porep_config.sector_size.0,
        porep_config.partitions.0 as u64,
    ) {
        Ok(pp) => pp,
        Err(e) => { return Err(e) },
    };
    let key = CircuitKey { params: pp, kind: ProofKind::StackedPorep };
    let circuit = blank_circuit(&pp, ProofKind::StackedPorep);
    match ensure_metadata(store, locks, backend, key, &circuit) {
        Ok(_) => (),
        Err(e) => { return Err(e) },
    };
    let circuit = blank_circuit(&pp, ProofKind::StackedPorep);
    match ensure_parameters(store, locks, backend, key, &circuit) {
        Ok(_) => (),
        Err(e) => { return Err(e) },
    };
    let circuit = blank_circuit(&pp, ProofKind::StackedPorep);
    match ensure_verifying_key(store, locks, backend, key, &circuit) {
        Ok(_) => (),
        Err(e) => { return Err(e) },
    };
    proof {
        assert forall|kd: ArtifactKind| store.has_valid(key, kd) by {
            match kd {
                ArtifactKind::Metadata => assert(store.has_valid(key, ArtifactKind::Metadata)),
                ArtifactKind::Params => assert(store.has_valid(key, ArtifactKind::Params)),
                ArtifactKind::VerifyingKey => assert(store.has_valid(
                    key,
                    ArtifactKind::VerifyingKey,
                )),
            }
        }
    }
    Ok(())
}

/// Shared body of the three proof-of-spacetime warm-ups.
fn cache_post_params<B: CircuitBackend>(
    store: &mut ParameterStore,
    locks: &mut LockTable,
    backend: &mut B,
    post_config: &PoStConfig,
    kind: ProofKind,
) -> (r: Result<(), Error>)
    requires
        forall|k: CircuitKey| !old(locks).holds(k),
    ensures
        forall|k: CircuitKey| final(locks).holds(k) == old(locks).holds(k),
        post_config_valid(*post_config) ==> match r {
            Ok(_) => all_artifacts_valid(*final(store), post_key_s(*post_config, kind)),
            Err(e) => e == Error::GenerationError,
        },
        post_config_valid(*post_config) && all_artifacts_valid(
            *old(store),
            post_key_s(*post_config, kind),
        ) ==> r == Result::<(), Error>::Ok(()) && *final(store) == *old(store),
        post_config_valid(*post_config) ==> slots_kept_or_valid(
            *old(store),
            *final(store),
            post_key_s(*post_config, kind),
        ) && valid_slots_kept(*old(store), *final(store), post_key_s(*post_config, kind)),
        !post_config_valid(*post_config) ==> r == Result::<(), Error>::Err(Error::ConfigError)
            && *final(store) == *old(store),
        forall|k2: CircuitKey, kd2: ArtifactKind|
            k2 != post_key_s(*post_config, kind) ==> find_s(final(store).records(), k2, kd2)
                == find_s(old(store).records(), k2, kd2),
{
    let pp = match post_public_params(post_config) {
        Ok(pp) => pp,
        Err(e) => { return Err(e) },
    };
    let key = CircuitKey { params: pp, kind };
    let circuit = blank_circuit(&pp, kind);
    match ensure_metadata(store, locks, backend, key, &circuit) {
        Ok(_) => (),
        Err(e) => { return Err(e) },
    };
    let circuit = blank_circuit(&pp, kind);
    match ensure_parameters(store, locks, backend, key, &circuit) {
        Ok(_) => (),
        Err(e) => { return Err(e) },
    };
    let circuit = blank_circuit(&pp, kind);
    match ensure_verifying_key(store, locks, backend, key, &circuit) {
        Ok(_) => (),
        Err(e) => { return Err(e) },
    };
    proof {
        assert forall|kd: ArtifactKind| store.has_valid(key, kd) by {
            match kd {
                ArtifactKind::Metadata => assert(store.has_valid(key, ArtifactKind::Metadata)),
                ArtifactKind::Params => assert(store.has_valid(key, ArtifactKind::Params)),
                ArtifactKind::VerifyingKey => assert(store.has_valid(
                    key,
                    ArtifactKind::VerifyingKey,
                )),
            }
        }
    }
    Ok(())
}

/// Checks and populates the election proof-of-spacetime parameter cache of
/// one setup; a fully valid cached set is reused untouched.
pub fn cache_election_post_params<B: CircuitBackend>(
    store: &mut ParameterStore,
    locks: &mut LockTable,
    backend: &mut B,
    post_config: &PoStConfig,
) -> (r: Result<(), Error>)
    requires
        forall|k: CircuitKey| !old(locks).holds(k),
    ensures
        forall|k: CircuitKey| final(locks).holds(k) == old(locks).holds(k),
        post_config_valid(*post_config) ==> match r {
            Ok(_) => all_artifacts_valid(
                *final(store),
                post_key_s(*post_config, ProofKind::ElectionPost),
            ),
            Err(e) => e == Error::GenerationError,
        },
        post_config_valid(*post_config) && all_artifacts_valid(
            *old(store),
            post_key_s(*post_config, ProofKind::ElectionPost),
        ) ==> r == Result::<(), Error>::Ok(()) && *final(store) == *old(store),
        post_config_valid(*post_config) ==> slots_kept_or_valid(
            *old(store),
            *final(store),
            post_key_s(*post_config, ProofKind::ElectionPost),
        ) && valid_slots_kept(
            *old(store),
            *final(store),
            post_key_s(*post_config, ProofKind::ElectionPost),
        ),
        !post_config_valid(*post_config) ==> r == Result::<(), Error>::Err(Error::ConfigError)
            && *final(store) == *old(store),
        forall|k2: CircuitKey, kd2: ArtifactKind|
            k2 != post_key_s(*post_config, ProofKind::ElectionPost) ==> find_s(
                final(store).records(),
                k2,
                kd2,
            ) == find_s(old(store).records(), k2, kd2),
{
    cache_post_params(store, locks, backend, post_config, ProofKind::ElectionPost)
}

/// Checks and populates the winning proof-of-spacetime parameter cache of
/// one setup; a fully valid cached set is reused untouched.
pub fn cache_winning_post_params<B: CircuitBackend>(
    store: &mut ParameterStore,
    locks: &mut LockTable,
    backend: &mut B,
    post_config: &PoStConfig,
) -> (r: Result<(), Error>)
    requires
        forall|k: CircuitKey| !old(locks).holds(k),
    ensures
        forall|k: CircuitKey| final(locks).holds(k) == old(locks).holds(k),
        post_config_valid(*post_config) ==> match r {
            Ok(_) => all_artifacts_valid(
                *final(store),
                post_key_s(*post_config, ProofKind::WinningPost),
            ),
            Err(e) => e == Error::GenerationError,
        },
        post_config_valid(*post_config) && all_artifacts_valid(
            *old(store),
            post_key_s(*post_config, ProofKind::WinningPost),
        ) ==> r == Result::<(), Error>::Ok(()) && *final(store) == *old(store),
        post_config_valid(*post_config) ==> slots_kept_or_valid(
            *old(store),
            *final(store),
            post_key_s(*post_config, ProofKind::WinningPost),
        ) && valid_slots_kept(
            *old(store),
            *final(store),
            post_key_s(*post_config, ProofKind::WinningPost),
        ),
        !post_config_valid(*post_config) ==> r == Result::<(), Error>::Err(Error::ConfigError)
            && *final(store) == *old(store),
        forall|k2: CircuitKey, kd2: ArtifactKind|
            k2 != post_key_s(*post_config, ProofKind::WinningPost) ==> find_s(
                final(store).records(),
                k2,
                kd2,
            ) == find_s(old(store).records(), k2, kd2),
{
    cache_post_params(store, locks, backend, post_config, ProofKind::WinningPost)
}

/// Checks and populates the window proof-of-spacetime parameter cache of
/// one setup; a fully valid cached set is reused untouched.
pub fn cache_window_post_params<B: CircuitBackend>(
    store: &mut ParameterStore,
    locks: &mut LockTable,
    backend: &mut B,
    post_config: &PoStConfig,
) -> (r: Result<(), Error>)
    requires
        forall|k: CircuitKey| !old(locks).holds(k),
    ensures
        forall|k: CircuitKey| final(locks).holds(k) == old(locks).holds(k),
        post_config_valid(*post_config) ==> match r {
            Ok(_) => all_artifacts_valid(
                *final(store),
                post_key_s(*post_config, ProofKind::WindowPost),
            ),
            Err(e) => e == Error::GenerationError,
        },
        post_config_valid(*post_config) && all_artifacts_valid(
            *old(store),
            post_key_s(*post_config, ProofKind::WindowPost),
        ) ==> r == Result::<(), Error>::Ok(()) && *final(store) == *old(store),
        post_config_valid(*post_config) ==> slots_kept_or_valid(
            *old(store),
            *final(store),
            post_key_s(*post_config, ProofKind::WindowPost),
        ) && valid_slots_kept(
            *old(store),
            *final(store),
            post_key_s(*post_config, ProofKind::WindowPost),
        ),
        !post_config_valid(*post_config) ==> r == Result::<(), Error>::Err(Error::ConfigError)
            && *final(store) == *old(store),
        forall|k2: CircuitKey, kd2: ArtifactKind|
            k2 != post_key_s(*post_config, ProofKind::WindowPost) ==> find_s(
                final(store).records(),
                k2,
                kd2,
            ) == find_s(old(store).records(), k2, kd2),
{
    cache_post_params(store, locks, backend, post_config, ProofKind::WindowPost)
}

/// Outcome of one (sector size, proof kind) warm-up pair.
pub struct WarmOutcome {
    pub sector_size: u64,
    pub kind: ProofKind,
    pub result: Result<(), Error>,
}

/// The election setup the warmer builds for one sector size.
pub open spec fn election_cfg_s(size: u64) -> PoStConfig {
    PoStConfig {
        sector_size: SectorSize(size),
        challenge_count: ELECTION_POST_CHALLENGE_COUNT,
        sector_count: 1,
        typ: PoStType::Election,
        priority: true,
    }
}

/// The winning setup the warmer builds for one sector size.
pub open spec fn winning_cfg_s(size: u64) -> PoStConfig {
    PoStConfig {
        sector_size: SectorSize(size),
        challenge_count: WINNING_POST_CHALLENGE_COUNT,
        sector_count: WINNING_POST_SECTOR_COUNT,
        typ: PoStType::Winning,
        priority: true,
    }
}

/// The window setup the warmer builds for one sector size; an unknown size
/// yields a zero sector count, rejected as a configuration error.
pub open spec fn window_cfg_s(size: u64) -> PoStConfig {
    PoStConfig {
        sector_size: SectorSize(size),
        challenge_count: WINDOW_POST_CHALLENGE_COUNT,
        sector_count: match window_post_sector_count_s(size) {
            Some(c) => c,
            None => 0,
        },
        typ: PoStType::Window,
        priority: true,
    }
}

/// The replication configuration the warmer builds for one sector size; an
/// unknown size yields zero partitions, rejected as a configuration error.
pub open spec fn warm_porep_cfg_s(size: u64) -> PoRepConfig {
    PoRepConfig {
        sector_size: SectorSize(size),
        partitions: PoRepProofPartitions(
            match porep_partitions_s(size) {
                Some(p) => p,
                None => 0,
            },
        ),
    }
}

/// Per-pair reporting: a configuration error exactly when the pair's
/// derived configuration is invalid; otherwise success, or a backend
/// failure surfaced as `GenerationError`.
pub open spec fn warm_pair_reported(r: Result<(), Error>, valid: bool) -> bool {
    &&& !valid ==> r == Result::<(), Error>::Err(Error::ConfigError)
    &&& valid ==> (r is Ok || r == Result::<(), Error>::Err(Error::GenerationError))
}

/// One warm-up block of outcome rows starting at `base`: the three
/// proof-of-spacetime pairs of the size in fixed order, the replication
/// pair after them unless restricted, each reported per pair.
pub open spec fn warm_block_reported(
    outcomes: Seq<WarmOutcome>,
    size: u64,
    only_post: bool,
    base: int,
) -> bool {
    &&& outcomes[base].sector_size == size
    &&& outcomes[base].kind == ProofKind::ElectionPost
    &&& warm_pair_reported(outcomes[base].result, post_config_valid(election_cfg_s(size)))
    &&& outcomes[base + 1].sector_size == size
    &&& outcomes[base + 1].kind == ProofKind::WinningPost
    &&& warm_pair_reported(outcomes[base + 1].result, post_config_valid(winning_cfg_s(size)))
    &&& outcomes[base + 2].sector_size == size
    &&& outcomes[base + 2].kind == ProofKind::WindowPost
    &&& warm_pair_reported(outcomes[base + 2].result, post_config_valid(window_cfg_s(size)))
    &&& !only_post ==> (outcomes[base + 3].sector_size == size && outcomes[base + 3].kind
        == ProofKind::StackedPorep && warm_pair_reported(
        outcomes[base + 3].result,
        crate::types::porep_config_valid(warm_porep_cfg_s(size)),
    ))
}

/// Warms one sector size: the three proof-of-spacetime variants and,
/// unless restricted to proof-of-spacetime, the replication circuit. Pairs
/// are independent: one pair's failure is recorded and the rest proceed.
/// Already-valid artifact sets are reused without a backend call, keys
/// outside the warmed set are untouched, and under the restriction no
/// replication entry is touched.
pub fn warm_sector_size<B: CircuitBackend>(
    store: &mut ParameterStore,
    locks: &mut LockTable,
    backend: &mut B,
    size: u64,
    only_post: bool,
) -> (outcomes: Vec<WarmOutcome>)
    requires
        forall|k: CircuitKey| !old(locks).holds(k),
    ensures
        forall|k: CircuitKey| final(locks).holds(k) == old(locks).holds(k),
        outcomes@.len() == if only_post {
            3int
        } else {
            4int
        },
        warm_block_reported(outcomes@, size, only_post, 0),
        outcomes@[0].result is Ok ==> all_artifacts_valid(
            *final(store),
            post_key_s(election_cfg_s(size), ProofKind::ElectionPost),
        ),
        outcomes@[1].result is Ok ==> all_artifacts_valid(
            *final(store),
            post_key_s(winning_cfg_s(size), ProofKind::WinningPost),
        ),
        outcomes@[2].result is Ok ==> all_artifacts_valid(
            *final(store),
            post_key_s(window_cfg_s(size), ProofKind::WindowPost),
        ),
        !only_post && outcomes@[3].result is Ok ==> all_artifacts_valid(
            *final(store),
            porep_key_s(warm_porep_cfg_s(size)),
        ),
        post_config_valid(election_cfg_s(size)) && all_artifacts_valid(
            *old(store),
            post_key_s(election_cfg_s(size), ProofKind::ElectionPost),
        ) ==> outcomes@[0].result is Ok,
        post_config_valid(winning_cfg_s(size)) && all_artifacts_valid(
            *old(store),
            post_key_s(winning_cfg_s(size), ProofKind::WinningPost),
        ) ==> outcomes@[1].result is Ok,
        post_config_valid(window_cfg_s(size)) && all_artifacts_valid(
            *old(store),
            post_key_s(window_cfg_s(size), ProofKind::WindowPost),
        ) ==> outcomes@[2].result is Ok,
        !only_post && crate::types::porep_config_valid(warm_porep_cfg_s(size))
            && all_artifacts_valid(*old(store), porep_key_s(warm_porep_cfg_s(size))) ==> outcomes@[3].result is Ok,
        forall|k2: CircuitKey, kd2: ArtifactKind|
            (k2 != post_key_s(election_cfg_s(size), ProofKind::ElectionPost) && k2 != post_key_s(
                winning_cfg_s(size),
                ProofKind::WinningPost,
            ) && k2 != post_key_s(window_cfg_s(size), ProofKind::WindowPost) && (only_post || k2
                != porep_key_s(warm_porep_cfg_s(size)))) ==> find_s(final(store).records(), k2, kd2)
                == find_s(old(store).records(), k2, kd2),
        only_post ==> forall|k2: CircuitKey, kd2: ArtifactKind|
            k2.kind == ProofKind::StackedPorep ==> find_s(final(store).records(), k2, kd2)
                == find_s(old(store).records(), k2, kd2),
{
    let ghost ekey = post_key_s(election_cfg_s(size), ProofKind::ElectionPost);
    let ghost wkey = post_key_s(winning_cfg_s(size), ProofKind::WinningPost);
    let ghost dkey = post_key_s(window_cfg_s(size), ProofKind::WindowPost);
    let ghost pkey = porep_key_s(warm_porep_cfg_s(size));
    let ghost s0 = *store;
    let mut outcomes: Vec<WarmOutcome> = Vec::new();
    let election_cfg = PoStConfig {
        sector_size: SectorSize(size),
        challenge_count: ELECTION_POST_CHALLENGE_COUNT,
        sector_count: 1,
        typ: PoStType::Election,
        priority: true,
    };
    let r0 = cache_election_post_params(store, locks, backend, &election_cfg);
    outcomes.push(
        WarmOutcome { sector_size: size, kind: ProofKind::ElectionPost, result: r0 },
    );
    let ghost s1 = *store;
    proof {
        lemma_key_frame(s0, s1, ekey, wkey);
        lemma_key_frame(s0, s1, ekey, dkey);
        lemma_key_frame(s0, s1, ekey, pkey);
    }
    let winning_cfg = PoStConfig {
        sector_size: SectorSize(size),
        challenge_count: WINNING_POST_CHALLENGE_COUNT,
        sector_count: WINNING_POST_SECTOR_COUNT,
        typ: PoStType::Winning,
        priority: true,
    };
    let r1 = cache_winning_post_params(store, locks, backend, &winning_cfg);
    outcomes.push(
        WarmOutcome { sector_size: size, kind: ProofKind::WinningPost, result: r1 },
    );
    let ghost s2 = *store;
    proof {
        lemma_key_frame(s1, s2, wkey, ekey);
        lemma_key_frame(s1, s2, wkey, dkey);
        lemma_key_frame(s1, s2, wkey, pkey);
    }
    let window_count = match window_post_sector_count(size) {
        Some(c) => c,
        None => 0,
    };
    let window_cfg = PoStConfig {
        sector_size: SectorSize(size),
        challenge_count: WINDOW_POST_CHALLENGE_COUNT,
        sector_count: window_count,
        typ: PoStType::Window,
        priority: true,
    };
    let r2 = cache_window_post_params(store, locks, backend, &window_cfg);
    outcomes.push(
        WarmOutcome { sector_size: size, kind: ProofKind::WindowPost, result: r2 },
    );
    let ghost s3 = *store;
    proof {
        lemma_key_frame(s2, s3, dkey, ekey);
        lemma_key_frame(s2, s3, dkey, wkey);
        lemma_key_frame(s2, s3, dkey, pkey);
    }
    if !only_post {
        let parts = match porep_partitions(size) {
            Some(p) => p,
            None => 0,
        };
        let porep_cfg = PoRepConfig {
            sector_size: SectorSize(size),
            partitions: PoRepProofPartitions(parts),
        };
        let r3 = cache_porep_params(store, locks, backend, porep_cfg);
        outcomes.push(
            WarmOutcome { sector_size: size, kind: ProofKind::StackedPorep, result: r3 },
        );
        let ghost s4 = *store;
        proof {
            lemma_key_frame(s3, s4, pkey, ekey);
            lemma_key_frame(s3, s4, pkey, wkey);
            lemma_key_frame(s3, s4, pkey, dkey);
        }
    }
    outcomes
}

/// Start of the warm-up block of the `b`-th requested size in the outcome
/// list.
pub open spec fn block_base(only_post: bool, b: int) -> int {
    if only_post {
        3 * b
    } else {
        4 * b
    }
}

/// Warms every requested sector size in turn; failures are reported per
/// pair and never abort the remaining pairs. The outcome list holds one
/// block per requested size, in request order, each pair reported. Under
/// the proof-of-spacetime-only restriction, no replication entry of the
/// cache is touched.
pub fn warm_all<B: CircuitBackend>(
    store: &mut ParameterStore,
    locks: &mut LockTable,
    backend: &mut B,
    sizes: &Vec<u64>,
    only_post: bool,
) -> (outcomes: Vec<WarmOutcome>)
    requires
        forall|k: CircuitKey| !old(locks).holds(k),
    ensures
        forall|k: CircuitKey| final(locks).holds(k) == old(locks).holds(k),
        outcomes@.len() == block_base(only_post, sizes@.len() as int),
        forall|b: int|
            0 <= b < sizes@.len() ==> #[trigger] warm_block_reported(
                outcomes@,
                sizes@[b],
                only_post,
                block_base(only_post, b),
            ),
        only_post ==> forall|k2: CircuitKey, kd2: ArtifactKind|
            k2.kind == ProofKind::StackedPorep ==> find_s(final(store).records(), k2, kd2)
                == find_s(old(store).records(), k2, kd2),
{
    let mut outcomes: Vec<WarmOutcome> = Vec::new();
    let mut i: usize = 0;
    while i < sizes.len()
        invariant
            i <= sizes@.len(),
            forall|k: CircuitKey| !locks.holds(k),
            outcomes@.len() == block_base(only_post, i as int),
            forall|b: int|
                0 <= b < i ==> #[trigger] warm_block_reported(
                    outcomes@,
                    sizes@[b],
                    only_post,
                    block_base(only_post, b),
                ),
            only_post ==> forall|k2: CircuitKey, kd2: ArtifactKind|
                k2.kind == ProofKind::StackedPorep ==> find_s(store.records(), k2, kd2) == find_s(
                    old(store).records(),
                    k2,
                    kd2,
                ),
        decreases sizes@.len() - i,
    {
        let mut batch = warm_sector_size(store, locks, backend, sizes[i], only_post);
        let ghost batch_snap = batch@;
        let ghost out_snap = outcomes@;
        let n = batch.len();
        let mut j: usize = 0;
        while j < n
            invariant
                j <= n,
                n == batch_snap.len(),
                batch@ == batch_snap.skip(j as int),
                outcomes@ == out_snap + batch_snap.take(j as int),
            decreases n - j,
        {
            let o = batch.remove(0);
            proof {
                assert(batch_snap.skip(j as int)[0] == batch_snap[j as int]);
                assert(batch_snap.skip(j as int).remove(0) =~= batch_snap.skip(j + 1));
            }
            outcomes.push(o);
            proof {
                assert(out_snap + batch_snap.take(j as int).push(batch_snap[j as int]) =~= out_snap
                    + batch_snap.take(j + 1));
                assert(outcomes@ == (out_snap + batch_snap.take(j as int)).push(
                    batch_snap[j as int],
                ));
                assert((out_snap + batch_snap.take(j as int)).push(batch_snap[j as int]) =~= out_snap
                    + batch_snap.take(j as int).push(batch_snap[j as int]));
            }
            j = j + 1;
        }
        proof {
            assert(batch_snap.take(n as int) =~= batch_snap);
            assert(outcomes@ == out_snap + batch_snap);
            assert forall|b: int| 0 <= b < i + 1 implies #[trigger] warm_block_reported(
                outcomes@,
                sizes@[b],
                only_post,
                block_base(only_post, b),
            ) by {
                if b < i {
                    assert(warm_block_reported(
                        out_snap,
                        sizes@[b],
                        only_post,
                        block_base(only_post, b),
                    ));
                    assert(block_base(only_post, b + 1) <= out_snap.len());
                    assert(forall|t: int|
                        0 <= t < out_snap.len() ==> outcomes@[t] == out_snap[t]);
                } else {
                    assert(warm_block_reported(batch_snap, sizes@[b], only_post, 0));
                    assert(forall|t: int|
                        0 <= t < batch_snap.len() ==> outcomes@[out_snap.len() + t]
                            == batch_snap[t]);
                    assert(block_base(only_post, b) == out_snap.len());
                }
            }
        }
        i = i + 1;
    }
    outcomes
}

} // verus!
