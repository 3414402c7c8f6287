use stacked_porep::error::Error;
use stacked_porep::layers::encode_layer;
use stacked_porep::params::public_params;
use stacked_porep::replicate::{DataTree, StackedDrg, StoreConfig};
use stacked_porep::types::{
    PaddedBytesAmount, PoRepConfig, PoRepProofPartitions, SectorSize, UnpaddedBytesAmount,
};

fn store_config() -> StoreConfig {
    StoreConfig { path: String::from("/tmp/layer-store"), id: String::from("t1") }
}

fn roundtrip(sector_size: u64, replica_id: u64, data: Vec<u8>) {
    let pp = public_params(sector_size, 1).unwrap();
    let (_tau, _aux, replica) =
        StackedDrg::replicate(&pp, replica_id, &data, None, store_config()).unwrap();
    assert_eq!(replica.len(), data.len());
    let extracted =
        StackedDrg::extract_all(&pp, replica_id, &replica, Some(store_config())).unwrap();
    assert_eq!(extracted, data);
}

#[test]
fn round_trip_all_zero_2kib() {
    roundtrip(2048, 7, vec![0u8; 2048]);
}

#[test]
fn round_trip_all_ones_2kib() {
    roundtrip(2048, 7, vec![0xffu8; 2048]);
}

#[test]
fn round_trip_random_2kib() {
    let mut data = Vec::new();
    for _ in 0..2048 {
        data.push(rand::random::<u8>());
    }
    roundtrip(2048, 0xdead_beef, data);
}

#[test]
fn round_trip_small_sector() {
    let mut data = Vec::new();
    for i in 0..64u64 {
        data.push((i * 7 + 13) as u8);
    }
    roundtrip(64, 99, data);
}

#[test]
fn replication_is_deterministic() {
    let pp = public_params(2048, 1).unwrap();
    let data: Vec<u8> = (0..2048u64).map(|i| (i % 251) as u8).collect();
    let (tau1, _aux1, replica1) =
        StackedDrg::replicate(&pp, 42, &data, None, store_config()).unwrap();
    let (tau2, _aux2, replica2) =
        StackedDrg::replicate(&pp, 42, &data, None, store_config()).unwrap();
    assert_eq!(tau1.comm_d, tau2.comm_d);
    assert_eq!(tau1.comm_r, tau2.comm_r);
    assert_eq!(replica1, replica2);
}

#[test]
fn golden_commitments_2kib() {
    let pp = public_params(2048, 1).unwrap();
    let data: Vec<u8> = (0..2048usize).map(|i| (i % 256) as u8).collect();
    let replica_id: u64 = 0x0123_4567_89AB_CDEF;
    let (tau, _aux, replica) =
        StackedDrg::replicate(&pp, replica_id, &data, None, store_config()).unwrap();
    assert_eq!(tau.comm_d, 0x7DB0_9957_5BD4_940F);
    assert_eq!(tau.comm_r, 0x0C49_2454_2268_D628);
    let mut first = [0u8; 8];
    first.copy_from_slice(&replica[0..8]);
    assert_eq!(u64::from_le_bytes(first), 0x02EC_2A74_F9D4_D454);
}

#[test]
fn replicate_rejects_wrong_data_length() {
    let pp = public_params(2048, 1).unwrap();
    let data = vec![0u8; 100];
    let r = StackedDrg::replicate(&pp, 1, &data, None, store_config());
    assert!(matches!(r, Err(Error::ConfigError)));
}

#[test]
fn unsupported_sector_sizes_rejected() {
    assert!(matches!(public_params(0, 1), Err(Error::ConfigError)));
    assert!(matches!(public_params(12, 1), Err(Error::ConfigError)));
    assert!(matches!(public_params(24, 1), Err(Error::ConfigError)));
    assert!(matches!(public_params(2048, 0), Err(Error::ConfigError)));
    assert!(public_params(2048, 1).is_ok());
}

#[test]
fn layer_needs_complete_predecessor() {
    let pp = public_params(2048, 1).unwrap();
    let g = stacked_porep::graph::build_graph(pp.sector_size).unwrap();
    let r = encode_layer(&g, 2, 7, None);
    assert!(matches!(r, Err(Error::MissingPredecessorLabel)));
    let partial = vec![1u64; 10];
    let r = encode_layer(&g, 2, 7, Some(&partial));
    assert!(matches!(r, Err(Error::MissingPredecessorLabel)));
    let first = encode_layer(&g, 1, 7, None).unwrap();
    assert_eq!(first.len(), 256);
    let second = encode_layer(&g, 2, 7, Some(&first)).unwrap();
    assert_eq!(second.len(), 256);
}

#[test]
fn precomputed_data_tree_is_reused() {
    let pp = public_params(2048, 1).unwrap();
    let data: Vec<u8> = (0..2048usize).map(|i| (i % 256) as u8).collect();
    let (tau, _aux, _replica) =
        StackedDrg::replicate(&pp, 5, &data, None, store_config()).unwrap();
    let tree = DataTree { leaf_count: 256, root: tau.comm_d };
    let (tau2, _aux2, _replica2) =
        StackedDrg::replicate(&pp, 5, &data, Some(&tree), store_config()).unwrap();
    assert_eq!(tau2.comm_d, tau.comm_d);
    assert_eq!(tau2.comm_r, tau.comm_r);
    let wrong = DataTree { leaf_count: 8, root: tau.comm_d };
    let r = StackedDrg::replicate(&pp, 5, &data, Some(&wrong), store_config());
    assert!(matches!(r, Err(Error::ConfigError)));
}

#[test]
fn byte_amount_conversions() {
    let cfg = PoRepConfig {
        sector_size: SectorSize(2048),
        partitions: PoRepProofPartitions(1),
    };
    assert_eq!(PaddedBytesAmount::from(cfg).0, 2048);
    assert_eq!(UnpaddedBytesAmount::from(cfg).0, 2048 - 16);
    assert_eq!(UnpaddedBytesAmount::from(PaddedBytesAmount::from(SectorSize(2048))).0, 2032);
    assert_eq!(PoRepProofPartitions::from(cfg).0, 1);
    assert_eq!(SectorSize::from(cfg).0, 2048);
}

#[test]
fn single_node_extract_unsupported() {
    let pp = public_params(2048, 1).unwrap();
    let data = vec![0u8; 2048];
    let r = StackedDrg::extract(&pp, 1, &data, 0, Some(store_config()));
    assert!(matches!(r, Err(Error::Unsupported)));
}
