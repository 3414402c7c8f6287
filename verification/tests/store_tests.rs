use stacked_porep::error::Error;
use stacked_porep::ident::ProofKind;
use stacked_porep::params::public_params;
use stacked_porep::store::{
    blank_circuit, digest, ensure_metadata, ensure_parameters, ArtifactKind, Circuit,
    CircuitBackend, CircuitKey, LockTable, ParameterStore,
};

/// A counting stand-in for the opaque circuit backend.
struct FakeBackend {
    metadata_calls: u64,
    params_calls: u64,
    vk_calls: u64,
}

impl FakeBackend {
    fn new() -> Self {
        FakeBackend { metadata_calls: 0, params_calls: 0, vk_calls: 0 }
    }
}

impl CircuitBackend for FakeBackend {
    fn derive_metadata(&mut self, _circuit: &Circuit) -> Result<Vec<u8>, Error> {
        self.metadata_calls += 1;
        Ok(vec![1, 2, 3])
    }

    fn generate_parameters(&mut self, _circuit: &Circuit, _seed: u64) -> Result<Vec<u8>, Error> {
        self.params_calls += 1;
        Ok(vec![9, 9, 9, 9])
    }

    fn derive_verifying_key(&mut self, _circuit: &Circuit, _seed: u64) -> Result<Vec<u8>, Error> {
        self.vk_calls += 1;
        Ok(vec![7])
    }
}

struct FailingBackend;

impl CircuitBackend for FailingBackend {
    fn derive_metadata(&mut self, _circuit: &Circuit) -> Result<Vec<u8>, Error> {
        Err(Error::GenerationError)
    }

    fn generate_parameters(&mut self, _circuit: &Circuit, _seed: u64) -> Result<Vec<u8>, Error> {
        Err(Error::GenerationError)
    }

    fn derive_verifying_key(&mut self, _circuit: &Circuit, _seed: u64) -> Result<Vec<u8>, Error> {
        Err(Error::GenerationError)
    }
}

fn porep_key() -> (CircuitKey, Circuit) {
    let pp = public_params(2048, 1).unwrap();
    let key = CircuitKey { params: pp, kind: ProofKind::StackedPorep };
    let circuit = blank_circuit(&pp, ProofKind::StackedPorep);
    (key, circuit)
}

#[test]
fn at_most_one_generation_for_one_identifier() {
    let (key, circuit) = porep_key();
    let mut store = ParameterStore::new();
    let mut locks = LockTable::new();
    let mut backend = FakeBackend::new();
    let b1 = ensure_parameters(&mut store, &mut locks, &mut backend, key, &circuit).unwrap();
    let b2 = ensure_parameters(&mut store, &mut locks, &mut backend, key, &circuit).unwrap();
    let b3 = ensure_parameters(&mut store, &mut locks, &mut backend, key, &circuit).unwrap();
    assert_eq!(backend.params_calls, 1);
    assert_eq!(b1, b2);
    assert_eq!(b2, b3);
    assert_eq!(digest(&b1), digest(&b3));
}

#[test]
fn identifier_lock_admits_one_holder() {
    let (key, _circuit) = porep_key();
    let pp2 = public_params(4096, 1).unwrap();
    let other = CircuitKey { params: pp2, kind: ProofKind::StackedPorep };
    let mut locks = LockTable::new();
    assert!(locks.try_acquire(key));
    assert!(!locks.try_acquire(key));
    assert!(locks.try_acquire(other));
    locks.release(key);
    assert!(locks.try_acquire(key));
    locks.release(key);
    locks.release(other);
}

#[test]
fn integrity_mismatch_triggers_regeneration() {
    let (key, circuit) = porep_key();
    let mut store = ParameterStore::new();
    let mut locks = LockTable::new();
    let mut backend = FakeBackend::new();
    // A cached copy whose recorded digest no longer matches its bytes.
    let corrupt = vec![0xbb, 0xaa, 0xdd];
    let stale_digest = digest(&vec![1, 2, 3]);
    store.load_recorded(key, ArtifactKind::Params, corrupt, stale_digest);
    assert!(store.needs_generation(key, ArtifactKind::Params));
    assert!(matches!(
        store.load_artifact(key, ArtifactKind::Params),
        Err(Error::IntegrityError)
    ));
    let fresh = ensure_parameters(&mut store, &mut locks, &mut backend, key, &circuit).unwrap();
    assert_eq!(backend.params_calls, 1);
    assert_eq!(fresh, vec![9, 9, 9, 9]);
    assert!(!store.needs_generation(key, ArtifactKind::Params));
    assert_eq!(store.load_artifact(key, ArtifactKind::Params).unwrap(), fresh);
}

#[test]
fn valid_cached_copy_is_reused_not_regenerated() {
    let (key, circuit) = porep_key();
    let mut store = ParameterStore::new();
    let mut locks = LockTable::new();
    let mut backend = FakeBackend::new();
    let bytes = vec![5, 4, 3, 2, 1];
    store.load_recorded(key, ArtifactKind::Metadata, bytes.clone(), digest(&bytes));
    let got = ensure_metadata(&mut store, &mut locks, &mut backend, key, &circuit).unwrap();
    assert_eq!(got, bytes);
    assert_eq!(backend.metadata_calls, 0);
}

#[test]
fn backend_failure_is_generation_error() {
    let (key, circuit) = porep_key();
    let mut store = ParameterStore::new();
    let mut locks = LockTable::new();
    let mut backend = FailingBackend;
    let r = ensure_parameters(&mut store, &mut locks, &mut backend, key, &circuit);
    assert!(matches!(r, Err(Error::GenerationError)));
    // The identifier lock is released on the failure path too.
    assert!(locks.try_acquire(key));
}

#[test]
fn missing_artifact_is_storage_error() {
    let (key, _circuit) = porep_key();
    let store = ParameterStore::new();
    assert!(matches!(
        store.load_artifact(key, ArtifactKind::VerifyingKey),
        Err(Error::StorageError)
    ));
}

#[test]
fn digest_is_content_sensitive() {
    let a = vec![1u8, 2, 3];
    let b = vec![1u8, 2, 4];
    let c = vec![1u8, 2, 3];
    assert_ne!(digest(&a), digest(&b));
    assert_eq!(digest(&a), digest(&c));
}
