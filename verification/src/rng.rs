use vstd::prelude::*;

use crate::error::Error;

verus! {

/// Relies on rand's `OsRng` (`RngCore::try_fill_bytes`): draws one word
/// from the operating system's secure entropy source. Nothing is promised
/// of the value; callers must hold for every outcome. A failure of the
/// entropy source itself comes back as `GenerationError` rather than a
/// panic.
#[verifier::external_body]
pub(crate) fn entropy_seed() -> Result<u64, Error> {
    let mut buf = [0u8; 8];
    match <rand::rngs::OsRng as rand::RngCore>::try_fill_bytes(&mut rand::rngs::OsRng, &mut buf) {
        Ok(()) => Ok(u64::from_le_bytes(buf)),
        Err(_) => Err(Error::GenerationError),
    }
}

} // verus!
