use vstd::prelude::*;

use crate::error::Error;
use crate::ident::ProofKind;
use crate::mix::{mix, mix_s};
use crate::params::PublicParams;
use crate::rng::entropy_seed;

verus! {

/// Starting value of the content digest fold.
pub const DIGEST_SEED: u64 = 0xD16E_57A0_13B7_C01D;

/// Content digest of an artifact's bytes, recorded beside it and checked
/// again at load time.
pub open spec fn digest_s(s: Seq<u8>) -> u64
    decreases s.len(),
{
    if s.len() == 0 {
        DIGEST_SEED
    } else {
        mix_s(digest_s(s.drop_last()) ^ (s.last() as u64))
    }
}

/// Computes the content digest of an artifact's bytes.
pub fn digest(bytes: &Vec<u8>) -> (d: u64)
    ensures
        d == digest_s(bytes@),
{
    let mut acc: u64 = DIGEST_SEED;
    let mut i: usize = 0;
    while i < bytes.len()
        invariant
            i <= bytes@.len(),
            acc == digest_s(bytes@.take(i as int)),
        decreases bytes@.len() - i,
    {
        acc = mix(acc ^ (bytes[i] as u64));
        proof {
            assert(bytes@.take(i + 1).drop_last() =~= bytes@.take(i as int));
            assert(bytes@.take(i + 1).last() == bytes@[i as int]);
        }
        i = i + 1;
    }
    assert(bytes@.take(bytes@.len() as int) =~= bytes@);
    acc
}

/// Identity of one cached parameter set: the circuit's structural shape and
/// its proof-kind discriminant.
#[derive(Clone, Copy, Debug, PartialEq, Eq, Structural)]
pub struct CircuitKey {
    pub params: PublicParams,
    pub kind: ProofKind,
}

/// A witness-free circuit description, all the backend needs to derive
/// metadata, proving parameters and the verifying key.
#[derive(Clone, Copy, Debug)]
pub struct Circuit {
    pub key: CircuitKey,
}

/// Builds the blank circuit of one circuit shape.
pub fn blank_circuit(params: &PublicParams, kind: ProofKind) -> (c: Circuit)
    ensures
        c.key == (CircuitKey { params: *params, kind }),
{
    Circuit { key: CircuitKey { params: *params, kind } }
}

/// The three artifact kinds one identifier keys.
#[derive(Clone, Copy, Debug, PartialEq, Eq, Structural)]
pub enum ArtifactKind {
    Metadata,
    Params,
    VerifyingKey,
}

/// The opaque circuit backend: derives artifacts from a blank circuit,
/// consuming secure entropy for the generation procedures. Production
/// backends and test stand-ins implement it; nothing is assumed of what
/// they return.
pub trait CircuitBackend {
    fn derive_metadata(&mut self, circuit: &Circuit) -> Result<Vec<u8>, Error>;

    fn generate_parameters(&mut self, circuit: &Circuit, seed: u64) -> Result<Vec<u8>, Error>;

    fn derive_verifying_key(&mut self, circuit: &Circuit, seed: u64) -> Result<Vec<u8>, Error>;
}

/// One cached artifact: its identity, bytes, and recorded content digest.
pub struct StoredArtifact {
    pub key: CircuitKey,
    pub kind: ArtifactKind,
    pub bytes: Vec<u8>,
    pub digest: u64,
}

/// The parameter cache: artifacts keyed by identifier and kind. Newest
/// record first; the newest record for a pair is authoritative.
pub struct ParameterStore {
    entries: Vec<StoredArtifact>,
}

/// The authoritative record for a pair, if any: the first match.
pub open spec fn find_s(s: Seq<StoredArtifact>, key: CircuitKey, kind: ArtifactKind) -> Option<
    StoredArtifact,
>
    decreases s.len(),
{
    if s.len() == 0 {
        None
    } else if s[0].key == key && s[0].kind == kind {
        Some(s[0])
    } else {
        find_s(s.drop_first(), key, kind)
    }
}

impl ParameterStore {
    pub closed spec fn records(self) -> Seq<StoredArtifact> {
        self.entries@
    }

    /// A pair is valid exactly when its authoritative record's bytes match
    /// the recorded digest.
    pub open spec fn has_valid(self, key: CircuitKey, kind: ArtifactKind) -> bool {
        match find_s(self.records(), key, kind) {
            Some(e) => digest_s(e.bytes@) == e.digest,
            None => false,
        }
    }

    pub open spec fn is_recorded(self, key: CircuitKey, kind: ArtifactKind) -> bool {
        find_s(self.records(), key, kind) is Some
    }

    pub open spec fn stored_bytes(self, key: CircuitKey, kind: ArtifactKind) -> Seq<u8>
        recommends
            self.is_recorded(key, kind),
    {
        find_s(self.records(), key, kind)->Some_0.bytes@
    }

    pub fn new() -> (s: Self)
        ensures
            forall|k: CircuitKey, kd: ArtifactKind| find_s(s.records(), k, kd) is None,
    {
        ParameterStore { entries: Vec::new() }
    }

    fn find_index(&self, key: CircuitKey, kind: ArtifactKind) -> (r: Option<usize>)
        ensures
            match r {
                Some(i) => i < self.records().len() && find_s(self.records(), key, kind)
                    == Some(self.records()[i as int]),
                None => find_s(self.records(), key, kind) is None,
            },
    {
        let n = self.entries.len();
        let mut i: usize = 0;
        assert(self.records().skip(0) =~= self.records());
        while i < n
            invariant
                i <= n,
                n == self.records().len(),
                find_s(self.records(), key, kind) == find_s(
                    self.records().skip(i as int),
                    key,
                    kind,
                ),
            decreases n - i,
        {
            let e = &self.entries[i];
            if e.key == key && e.kind == kind {
                proof {
                    assert(self.records().skip(i as int)[0] == self.records()[i as int]);
                }
                return Some(i);
            }
            proof {
                assert(self.records().skip(i as int).drop_first() =~= self.records().skip(
                    i + 1,
                ));
                assert(self.records().skip(i as int)[0] == self.records()[i as int]);
            }
            i = i + 1;
        }
        None
    }

    /// Records an artifact under its freshly computed content digest; the
    /// new record becomes authoritative for its pair and no other pair
    /// changes.
    pub fn install(&mut self, key: CircuitKey, kind: ArtifactKind, bytes: Vec<u8>)
        ensures
            find_s(final(self).records(), key, kind) == Some(
                StoredArtifact { key, kind, bytes, digest: digest_s(bytes@) },
            ),
            final(self).has_valid(key, kind),
            final(self).stored_bytes(key, kind) == bytes@,
            forall|k2: CircuitKey, kd2: ArtifactKind|
                !(k2 == key && kd2 == kind) ==> find_s(final(self).records(), k2, kd2) == find_s(
                    old(self).records(),
                    k2,
                    kd2,
                ),
    {
        let d = digest(&bytes);
        self.entries.insert(0, StoredArtifact { key, kind, bytes, digest: d });
        proof {
            assert(self.records()[0].key == key && self.records()[0].kind == kind);
            assert(self.records().drop_first() =~= old(self).records());
        }
    }

    /// Replays one on-disk record as read back by the surrounding process:
    /// bytes and recorded digest are taken as found and may disagree.
    pub fn load_recorded(
        &mut self,
        key: CircuitKey,
        kind: ArtifactKind,
        bytes: Vec<u8>,
        recorded_digest: u64,
    )
        ensures
            find_s(final(self).records(), key, kind) == Some(
                StoredArtifact { key, kind, bytes, digest: recorded_digest },
            ),
            final(self).has_valid(key, kind) == (digest_s(bytes@) == recorded_digest),
            forall|k2: CircuitKey, kd2: ArtifactKind|
                !(k2 == key && kd2 == kind) ==> find_s(final(self).records(), k2, kd2) == find_s(
                    old(self).records(),
                    k2,
                    kd2,
                ),
    {
        self.entries.insert(0, StoredArtifact { key, kind, bytes, digest: recorded_digest });
        proof {
            assert(self.records()[0].key == key && self.records()[0].kind == kind);
            assert(self.records().drop_first() =~= old(self).records());
        }
    }

    /// Returns the artifact's bytes when its record is present and its
    /// digest matches, and nothing otherwise.
    pub fn read_valid(&self, key: CircuitKey, kind: ArtifactKind) -> (r: Option<Vec<u8>>)
        ensures
            match r {
                Some(b) => self.has_valid(key, kind) && b@ == self.stored_bytes(key, kind),
                None => !self.has_valid(key, kind),
            },
    {
        match self.find_index(key, kind) {
            None => None,
            Some(i) => {
                let e = &self.entries[i];
                let d = digest(&e.bytes);
                if d == e.digest {
                    Some(copy_bytes(&e.bytes))
                } else {
                    None
                }
            },
        }
    }

    /// Loads and validates an artifact: `StorageError` when no record
    /// exists, `IntegrityError` when the recorded digest does not match the
    /// bytes.
    pub fn load_artifact(&self, key: CircuitKey, kind: ArtifactKind) -> (r: Result<Vec<u8>, Error>)
        ensures
            self.has_valid(key, kind) ==> (r matches Ok(b) && b@ == self.stored_bytes(key, kind)),
            self.is_recorded(key, kind) && !self.has_valid(key, kind) ==> r == Result::<
                Vec<u8>,
                Error,
            >::Err(Error::IntegrityError),
            !self.is_recorded(key, kind) ==> r == Result::<Vec<u8>, Error>::Err(
                Error::StorageError,
            ),
    {
        match self.find_index(key, kind) {
            None => Err(Error::StorageError),
            Some(i) => {
                let e = &self.entries[i];
                let d = digest(&e.bytes);
                if d == e.digest {
                    Ok(copy_bytes(&e.bytes))
                } else {
                    Err(Error::IntegrityError)
                }
            },
        }
    }

    /// True exactly when the pair has no valid cached artifact, so a call
    /// would have to run generation: absent entirely, or recorded with a
    /// stale digest (the integrity mismatch treated as a cache miss).
    pub fn needs_generation(&self, key: CircuitKey, kind: ArtifactKind) -> (b: bool)
        ensures
            b == !self.has_valid(key, kind),
    {
        match self.read_valid(key, kind) {
            Some(_) => false,
            None => true,
        }
    }
}

fn copy_bytes(src: &Vec<u8>) -> (r: Vec<u8>)
    ensures
        r@ == src@,
{
    let mut r: Vec<u8> = Vec::new();
    let mut i: usize = 0;
    while i < src.len()
        invariant
            i <= src@.len(),
            r@ == src@.take(i as int),
        decreases src@.len() - i,
    {
        r.push(src[i]);
        i = i + 1;
    }
    assert(r@ =~= src@);
    r
}

/// The identifier-scoped exclusive locks guarding generation: per key, at
/// most one holder at a time.
pub struct LockTable {
    held: Vec<CircuitKey>,
}

impl LockTable {
    pub closed spec fn holds(self, key: CircuitKey) -> bool {
        self.held@.contains(key)
    }

    pub fn new() -> (t: Self)
        ensures
            forall|k: CircuitKey| !t.holds(k),
    {
        LockTable { held: Vec::new() }
    }

    /// Takes the key's lock. Fails exactly when the key is already held,
    /// so concurrent first-time callers for one identifier admit at most
    /// one generator.
    pub fn try_acquire(&mut self, key: CircuitKey) -> (ok: bool)
        ensures
            ok == !old(self).holds(key),
            ok ==> final(self).holds(key),
            forall|k2: CircuitKey|
                k2 != key ==> final(self).holds(k2) == old(self).holds(k2),
            !ok ==> *final(self) == *old(self),
    {
        let n = self.held.len();
        let mut i: usize = 0;
        while i < n
            invariant
                i <= n,
                n == self.held@.len(),
                forall|t: int| 0 <= t < i ==> self.held@[t] != key,
            decreases n - i,
        {
            if self.held[i] == key {
                assert(old(self).holds(key));
                return false;
            }
            i = i + 1;
        }
        assert(!old(self).holds(key));
        self.held.push(key);
        assert(final(self).held@.last() == key);
        assert forall|k2: CircuitKey|
            k2 != key implies final(self).holds(k2) == old(self).holds(k2) by {
            assert(forall|t: int|
                0 <= t < old(self).held@.len() ==> final(self).held@[t] == old(self).held@[t]);
            if old(self).holds(k2) {
                let t = choose|t: int|
                    0 <= t < old(self).held@.len() && old(self).held@[t] == k2;
                assert(final(self).held@[t] == k2);
            }
            if final(self).holds(k2) {
                let t = choose|t: int|
                    0 <= t < final(self).held@.len() && final(self).held@[t] == k2;
                assert(t < old(self).held@.len());
                assert(old(self).held@[t] == k2);
            }
        }
        true
    }

    /// Releases the key's lock; other keys are untouched.
    pub fn release(&mut self, key: CircuitKey)
        ensures
            !final(self).holds(key),
            forall|k2: CircuitKey|
                k2 != key ==> final(self).holds(k2) == old(self).holds(k2),
    {
        let n = self.held.len();
        let mut out: Vec<CircuitKey> = Vec::new();
        let mut i: usize = 0;
        while i < n
            invariant
                i <= n,
                n == self.held@.len(),
                forall|t: int| 0 <= t < out@.len() ==> out@[t] != key,
                forall|t: int| 0 <= t < out@.len() ==> self.held@.take(i as int).contains(out@[t]),
                forall|k2: CircuitKey|
                    k2 != key && self.held@.take(i as int).contains(k2) ==> out@.contains(k2),
            decreases n - i,
        {
            let keep = !(self.held[i] == key);
            let ghost out_pre = out@;
            if keep {
                out.push(self.held[i]);
            }
            proof {
                let s_next = self.held@.take(i + 1);
                let s_cur = self.held@.take(i as int);
                assert(s_cur.push(self.held@[i as int]) =~= s_next);
                assert forall|k2: CircuitKey| out_pre.contains(k2) implies out@.contains(k2) by {
                    let u = choose|u: int| 0 <= u < out_pre.len() && out_pre[u] == k2;
                    assert(out@[u] == k2);
                }
                assert forall|k2: CircuitKey|
                    k2 != key && s_next.contains(k2) implies out@.contains(k2) by {
                    let t = choose|t: int| 0 <= t < s_next.len() && s_next[t] == k2;
                    if t < i {
                        assert(s_cur.contains(k2)) by {
                            assert(s_cur[t] == k2);
                        }
                        assert(out_pre.contains(k2));
                    } else {
                        assert(self.held@[i as int] == k2);
                        assert(out@.last() == k2);
                    }
                }
                assert forall|t: int| 0 <= t < out@.len() implies s_next.contains(out@[t]) by {
                    if t < out_pre.len() {
                        assert(out_pre[t] == out@[t]);
                        assert(s_cur.contains(out_pre[t]));
                        let u = choose|u: int| 0 <= u < s_cur.len() && s_cur[u] == out@[t];
                        assert(s_next[u] == out@[t]);
                    } else {
                        assert(out@[t] == self.held@[i as int]);
                        assert(s_next[i as int] == out@[t]);
                    }
                }
            }
            i = i + 1;
        }
        proof {
            assert(self.held@.take(n as int) =~= self.held@);
        }
        self.held = out;
        proof {
            if self.holds(key) {
                let t = choose|t: int| 0 <= t < self.held@.len() && self.held@[t] == key;
                assert(false);
            }
        }
    }
}

/// Idempotent ensure of one artifact: reuse a valid cached copy, else take
/// the identifier lock, run the backend once, record the result, and
/// release the lock on every exit path. A valid cached artifact is never
/// regenerated; a stale digest is treated as a cache miss and heals.
fn ensure_with<B: CircuitBackend>(
    store: &mut ParameterStore,
    locks: &mut LockTable,
    backend: &mut B,
    key: CircuitKey,
    kind: ArtifactKind,
    circuit: &Circuit,
) -> (r: Result<Vec<u8>, Error>)
    requires
        !old(locks).holds(key),
    ensures
        forall|k2: CircuitKey| final(locks).holds(k2) == old(locks).holds(k2),
        old(store).has_valid(key, kind) ==> (r matches Ok(b) && b@ == old(store).stored_bytes(
            key,
            kind,
        ) && *final(store) == *old(store)),
        !old(store).has_valid(key, kind) ==> match r {
            Ok(b) => final(store).has_valid(key, kind) && final(store).stored_bytes(key, kind)
                == b@ && final(store).stored_bytes(key, kind).len() == b@.len(),
            Err(e) => e == Error::GenerationError && *final(store) == *old(store),
        },
        forall|k2: CircuitKey, kd2: ArtifactKind|
            !(k2 == key && kd2 == kind) ==> find_s(final(store).records(), k2, kd2) == find_s(
                old(store).records(),
                k2,
                kd2,
            ),
{
    if let Some(b) = store.read_valid(key, kind) {
        return Ok(b);
    }
    let ok = locks.try_acquire(key);
    assert(ok);
    let generated = match kind {
        ArtifactKind::Metadata => backend.derive_metadata(circuit),
        ArtifactKind::Params => match entropy_seed() {
            Ok(seed) => backend.generate_parameters(circuit, seed),
            Err(e) => Err(e),
        },
        ArtifactKind::VerifyingKey => match entropy_seed() {
            Ok(seed) => backend.derive_verifying_key(circuit, seed),
            Err(e) => Err(e),
        },
    };
    match generated {
        Err(_) => {
            locks.release(key);
            Err(Error::GenerationError)
        },
        Ok(bytes) => {
            store.install(key, kind, bytes);
            locks.release(key);
            match store.read_valid(key, kind) {
                Some(b) => Ok(b),
                None => {
                    proof {
                        assert(false);
                    }
                    Err(Error::StorageError)
                },
            }
        },
    }
}

/// Ensures the metadata artifact of one identifier, deriving it from the
/// blank circuit only when no valid cached copy exists.
pub fn ensure_metadata<B: CircuitBackend>(
    store: &mut ParameterStore,
    locks: &mut LockTable,
    backend: &mut B,
    key: CircuitKey,
    circuit: &Circuit,
) -> (r: Result<Vec<u8>, Error>)
    requires
        !old(locks).holds(key),
    ensures
        forall|k2: CircuitKey| final(locks).holds(k2) == old(locks).holds(k2),
        old(store).has_valid(key, ArtifactKind::Metadata) ==> (r matches Ok(b) && b@ == old(store).stored_bytes(key, ArtifactKind::Metadata) && *final(store) == *old(store)),
        !old(store).has_valid(key, ArtifactKind::Metadata) ==> match r {
            Ok(b) => final(store).has_valid(key, ArtifactKind::Metadata) && final(store).stored_bytes(key, ArtifactKind::Metadata) == b@,
            Err(e) => e == Error::GenerationError && *final(store) == *old(store),
        },
        forall|k2: CircuitKey, kd2: ArtifactKind|
            !(k2 == key && kd2 == ArtifactKind::Metadata) ==> find_s(
                final(store).records(),
                k2,
                kd2,
            ) == find_s(old(store).records(), k2, kd2),
{
    ensure_with(store, locks, backend, key, ArtifactKind::Metadata, circuit)
}

/// Ensures the proving-parameters artifact of one identifier; absent or
/// digest-stale copies trigger the one-shot generation procedure under the
/// identifier lock, with fresh entropy.
pub fn ensure_parameters<B: CircuitBackend>(
    store: &mut ParameterStore,
    locks: &mut LockTable,
    backend: &mut B,
    key: CircuitKey,
    circuit: &Circuit,
) -> (r: Result<Vec<u8>, Error>)
    requires
        !old(locks).holds(key),
    ensures
        forall|k2: CircuitKey| final(locks).holds(k2) == old(locks).holds(k2),
        old(store).has_valid(key, ArtifactKind::Params) ==> (r matches Ok(b) && b@ == old(store).stored_bytes(key, ArtifactKind::Params) && *final(store) == *old(store)),
        !old(store).has_valid(key, ArtifactKind::Params) ==> match r {
            Ok(b) => final(store).has_valid(key, ArtifactKind::Params) && final(store).stored_bytes(key, ArtifactKind::Params) == b@,
            Err(e) => e == Error::GenerationError && *final(store) == *old(store),
        },
        forall|k2: CircuitKey, kd2: ArtifactKind|
            !(k2 == key && kd2 == ArtifactKind::Params) ==> find_s(final(store).records(), k2, kd2)
                == find_s(old(store).records(), k2, kd2),
{
    ensure_with(store, locks, backend, key, ArtifactKind::Params, circuit)
}

/// Ensures the verifying-key artifact of one identifier; an independent
/// artifact under the same pattern as the proving parameters.
pub fn ensure_verifying_key<B: CircuitBackend>(
    store: &mut ParameterStore,
    locks: &mut LockTable,
    backend: &mut B,
    key: CircuitKey,
    circuit: &Circuit,
) -> (r: Result<Vec<u8>, Error>)
    requires
        !old(locks).holds(key),
    ensures
        forall|k2: CircuitKey| final(locks).holds(k2) == old(locks).holds(k2),
        old(store).has_valid(key, ArtifactKind::VerifyingKey) ==> (r matches Ok(b) && b@ == old(store).stored_bytes(key, ArtifactKind::VerifyingKey) && *final(store) == *old(store)),
        !old(store).has_valid(key, ArtifactKind::VerifyingKey) ==> match r {
            Ok(b) => final(store).has_valid(key, ArtifactKind::VerifyingKey) && final(store).stored_bytes(key, ArtifactKind::VerifyingKey) == b@,
            Err(e) => e == Error::GenerationError && *final(store) == *old(store),
        },
        forall|k2: CircuitKey, kd2: ArtifactKind|
            !(k2 == key && kd2 == ArtifactKind::VerifyingKey) ==> find_s(
                final(store).records(),
                k2,
                kd2,
            ) == find_s(old(store).records(), k2, kd2),
{
    ensure_with(store, locks, backend, key, ArtifactKind::VerifyingKey, circuit)
}

} // verus!
