use stacked_porep::error::Error;
use stacked_porep::ident::ProofKind;
use stacked_porep::params::public_params;
use stacked_porep::store::{
    ArtifactKind, Circuit, CircuitBackend, CircuitKey, LockTable, ParameterStore,
};
use stacked_porep::types::{PoRepConfig, PoRepProofPartitions, SectorSize};
use stacked_porep::warmer::{
    cache_porep_params, published_sector_sizes, warm_all, warm_sector_size, PoStConfig, PoStType,
    ELECTION_POST_CHALLENGE_COUNT, SECTOR_SIZE_2_KIB, SECTOR_SIZE_32_GIB, SECTOR_SIZE_512_MIB,
    SECTOR_SIZE_8_MIB, WINDOW_POST_CHALLENGE_COUNT, WINNING_POST_CHALLENGE_COUNT,
    WINNING_POST_SECTOR_COUNT,
};

struct FakeBackend {
    generations: u64,
}

impl CircuitBackend for FakeBackend {
    fn derive_metadata(&mut self, _circuit: &Circuit) -> Result<Vec<u8>, Error> {
        self.generations += 1;
        Ok(vec![1])
    }

    fn generate_parameters(&mut self, _circuit: &Circuit, _seed: u64) -> Result<Vec<u8>, Error> {
        self.generations += 1;
        Ok(vec![2, 2])
    }

    fn derive_verifying_key(&mut self, _circuit: &Circuit, _seed: u64) -> Result<Vec<u8>, Error> {
        self.generations += 1;
        Ok(vec![3, 3, 3])
    }
}

fn post_key(size: u64, challenges: u64, sectors: u64, kind: ProofKind) -> CircuitKey {
    let cfg = PoStConfig {
        sector_size: SectorSize(size),
        challenge_count: challenges,
        sector_count: sectors,
        typ: PoStType::Election,
        priority: true,
    };
    let pp = stacked_porep::warmer::election_post_public_params(&cfg).unwrap();
    CircuitKey { params: pp, kind }
}

#[test]
fn only_post_populates_exactly_the_three_post_sets() {
    let mut store = ParameterStore::new();
    let mut locks = LockTable::new();
    let mut backend = FakeBackend { generations: 0 };
    let outcomes =
        warm_sector_size(&mut store, &mut locks, &mut backend, SECTOR_SIZE_2_KIB, true);
    assert_eq!(outcomes.len(), 3);
    assert!(outcomes.iter().all(|o| o.result.is_ok()));
    assert!(outcomes.iter().all(|o| o.kind != ProofKind::StackedPorep));
    // Three artifact kinds for each of the three variants, and nothing else.
    assert_eq!(backend.generations, 9);
    let election = post_key(SECTOR_SIZE_2_KIB, ELECTION_POST_CHALLENGE_COUNT, 1,
        ProofKind::ElectionPost);
    let winning = post_key(SECTOR_SIZE_2_KIB, WINNING_POST_CHALLENGE_COUNT,
        WINNING_POST_SECTOR_COUNT, ProofKind::WinningPost);
    let window = post_key(SECTOR_SIZE_2_KIB, WINDOW_POST_CHALLENGE_COUNT, 2,
        ProofKind::WindowPost);
    for key in [election, winning, window] {
        assert!(!store.needs_generation(key, ArtifactKind::Metadata));
        assert!(!store.needs_generation(key, ArtifactKind::Params));
        assert!(!store.needs_generation(key, ArtifactKind::VerifyingKey));
    }
    let porep_key = CircuitKey {
        params: public_params(SECTOR_SIZE_2_KIB, 1).unwrap(),
        kind: ProofKind::StackedPorep,
    };
    assert!(store.needs_generation(porep_key, ArtifactKind::Metadata));
    assert!(store.needs_generation(porep_key, ArtifactKind::Params));
    assert!(store.needs_generation(porep_key, ArtifactKind::VerifyingKey));
}

#[test]
fn full_warm_includes_the_porep_set() {
    let mut store = ParameterStore::new();
    let mut locks = LockTable::new();
    let mut backend = FakeBackend { generations: 0 };
    let outcomes =
        warm_sector_size(&mut store, &mut locks, &mut backend, SECTOR_SIZE_2_KIB, false);
    assert_eq!(outcomes.len(), 4);
    assert!(outcomes.iter().all(|o| o.result.is_ok()));
    assert_eq!(backend.generations, 12);
    let porep_key = CircuitKey {
        params: public_params(SECTOR_SIZE_2_KIB, 1).unwrap(),
        kind: ProofKind::StackedPorep,
    };
    assert!(!store.needs_generation(porep_key, ArtifactKind::Metadata));
    assert!(!store.needs_generation(porep_key, ArtifactKind::Params));
    assert!(!store.needs_generation(porep_key, ArtifactKind::VerifyingKey));
}

#[test]
fn one_pair_failure_does_not_abort_the_rest() {
    // 64 bytes is a supported graph size with no published presets, so the
    // window pair fails on its missing sector count while the rest proceed.
    let mut store = ParameterStore::new();
    let mut locks = LockTable::new();
    let mut backend = FakeBackend { generations: 0 };
    let outcomes = warm_sector_size(&mut store, &mut locks, &mut backend, 64, false);
    assert_eq!(outcomes.len(), 4);
    assert!(outcomes[0].result.is_ok());
    assert!(outcomes[1].result.is_ok());
    assert!(matches!(outcomes[2].result, Err(Error::ConfigError)));
    assert!(matches!(outcomes[3].result, Err(Error::ConfigError)));
}

#[test]
fn warm_all_covers_every_requested_size() {
    let mut store = ParameterStore::new();
    let mut locks = LockTable::new();
    let mut backend = FakeBackend { generations: 0 };
    let sizes = vec![SECTOR_SIZE_2_KIB, 64];
    let outcomes = warm_all(&mut store, &mut locks, &mut backend, &sizes, true);
    assert_eq!(outcomes.len(), 6);
    assert!(outcomes[0..3].iter().all(|o| o.sector_size == SECTOR_SIZE_2_KIB));
    assert!(outcomes[3..6].iter().all(|o| o.sector_size == 64));
}

#[test]
fn published_sizes_are_the_four_supported_sizes() {
    let sizes = published_sector_sizes();
    assert_eq!(
        sizes,
        vec![SECTOR_SIZE_2_KIB, SECTOR_SIZE_8_MIB, SECTOR_SIZE_512_MIB, SECTOR_SIZE_32_GIB]
    );
}

#[test]
fn second_warm_run_reuses_every_cached_artifact() {
    let mut store = ParameterStore::new();
    let mut locks = LockTable::new();
    let mut backend = FakeBackend { generations: 0 };
    let first =
        warm_sector_size(&mut store, &mut locks, &mut backend, SECTOR_SIZE_2_KIB, false);
    assert!(first.iter().all(|o| o.result.is_ok()));
    assert_eq!(backend.generations, 12);
    let second =
        warm_sector_size(&mut store, &mut locks, &mut backend, SECTOR_SIZE_2_KIB, false);
    assert!(second.iter().all(|o| o.result.is_ok()));
    assert_eq!(backend.generations, 12);
}

#[test]
fn porep_warm_is_idempotent() {
    let mut store = ParameterStore::new();
    let mut locks = LockTable::new();
    let mut backend = FakeBackend { generations: 0 };
    let cfg = PoRepConfig {
        sector_size: SectorSize(SECTOR_SIZE_2_KIB),
        partitions: PoRepProofPartitions(1),
    };
    cache_porep_params(&mut store, &mut locks, &mut backend, cfg).unwrap();
    assert_eq!(backend.generations, 3);
    cache_porep_params(&mut store, &mut locks, &mut backend, cfg).unwrap();
    assert_eq!(backend.generations, 3);
}

#[test]
fn porep_warm_rejects_invalid_config() {
    let mut store = ParameterStore::new();
    let mut locks = LockTable::new();
    let mut backend = FakeBackend { generations: 0 };
    let cfg = PoRepConfig { sector_size: SectorSize(100), partitions: PoRepProofPartitions(1) };
    let r = cache_porep_params(&mut store, &mut locks, &mut backend, cfg);
    assert!(matches!(r, Err(Error::ConfigError)));
    assert_eq!(backend.generations, 0);
}
