use vstd::prelude::*;

verus! {

/// Error taxonomy of the library.
///
/// - `ConfigError`: invalid or unsupported sizing; user-correctable, never retried.
/// - `StorageError`: failure on layer or artifact data; fatal for the current run.
/// - `IntegrityError`: a cached artifact's recorded digest does not match its bytes.
/// - `GenerationError`: the circuit backend failed to build an artifact; fatal, no retry.
/// - `MissingPredecessorLabel`: a layer was encoded before its predecessor layer
///   was fully available; an orchestration bug, fatal.
/// - `Unsupported`: the requested operation is an explicit non-goal.
#[derive(Clone, Copy, Debug, PartialEq, Eq, Structural)]
pub enum Error {
    ConfigError,
    StorageError,
    IntegrityError,
    GenerationError,
    MissingPredecessorLabel,
    Unsupported,
}

} // verus!
