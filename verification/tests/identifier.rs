use stacked_porep::error::Error;
use stacked_porep::ident::{cache_identifier_string, ProofKind};
use stacked_porep::params::public_params;
use stacked_porep::types::{PoRepConfig, PoRepProofPartitions, SectorSize};

fn cfg(sector_size: u64, partitions: u8) -> PoRepConfig {
    PoRepConfig {
        sector_size: SectorSize(sector_size),
        partitions: PoRepProofPartitions(partitions),
    }
}

#[test]
fn identifier_is_stable_across_runs() {
    let a = cfg(2048, 1).get_cache_identifier().unwrap();
    let b = cfg(2048, 1).get_cache_identifier().unwrap();
    assert_eq!(a, b);
}

#[test]
fn identifier_differs_by_sector_size() {
    let a = cfg(2048, 1).get_cache_identifier().unwrap();
    let b = cfg(4096, 1).get_cache_identifier().unwrap();
    assert_ne!(a, b);
}

#[test]
fn identifier_differs_by_partitions() {
    let a = cfg(2048, 1).get_cache_identifier().unwrap();
    let b = cfg(2048, 2).get_cache_identifier().unwrap();
    assert_ne!(a, b);
}

#[test]
fn identifier_differs_by_proof_kind() {
    let pp = public_params(2048, 1).unwrap();
    let a = cache_identifier_string(&pp, ProofKind::StackedPorep);
    let b = cache_identifier_string(&pp, ProofKind::ElectionPost);
    let c = cache_identifier_string(&pp, ProofKind::WinningPost);
    let d = cache_identifier_string(&pp, ProofKind::WindowPost);
    assert_ne!(a, b);
    assert_ne!(a, c);
    assert_ne!(a, d);
    assert_ne!(b, c);
    assert_ne!(b, d);
    assert_ne!(c, d);
}

#[test]
fn identifier_fuzz_no_collisions() {
    let mut state: u64 = 0x1234_5678;
    let mut step = move || {
        state = state.wrapping_mul(6364136223846793005).wrapping_add(1442695040888963407);
        state
    };
    let mut seen: Vec<((u64, u8), String)> = Vec::new();
    for _ in 0..64 {
        let size: u64 = 8u64 << (step() % 12);
        let parts: u8 = (step() % 8 + 1) as u8;
        let id = cfg(size, parts).get_cache_identifier().unwrap();
        for ((s2, p2), id2) in &seen {
            if (*s2, *p2) != (size, parts) {
                assert_ne!(&id, id2);
            } else {
                assert_eq!(&id, id2);
            }
        }
        seen.push(((size, parts), id));
    }
}

#[test]
fn identifier_rejects_invalid_config() {
    assert!(matches!(cfg(100, 1).get_cache_identifier(), Err(Error::ConfigError)));
    assert!(matches!(cfg(2048, 0).get_cache_identifier(), Err(Error::ConfigError)));
}

#[test]
fn cache_paths_share_identifier_and_differ_in_suffix() {
    let c = cfg(2048, 1);
    let id = c.get_cache_identifier().unwrap();
    let meta = c.get_cache_metadata_path().unwrap();
    let params = c.get_cache_params_path().unwrap();
    let vk = c.get_cache_verifying_key_path().unwrap();
    let dir = "/var/tmp/filecoin-proof-parameters/";
    assert_eq!(meta, format!("{}{}{}", dir, id, ".meta"));
    assert_eq!(params, format!("{}{}{}", dir, id, ".params"));
    assert_eq!(vk, format!("{}{}{}", dir, id, ".vk"));
}

#[test]
fn identifier_is_fixed_width_hex() {
    let id = cfg(2048, 1).get_cache_identifier().unwrap();
    assert_eq!(id.len(), 96);
    assert!(id.chars().all(|c| c.is_ascii_hexdigit()));
}
