//! Fresh challenges.
use vstd::prelude::*;

use rand::rngs::OsRng;
use rand::RngCore;

verus! {

/// Relies on rand's `OsRng::try_fill_bytes`: 32 bytes from the operating system's
/// entropy source, or, where the source fails, the description of its error.
/// Nothing is promised of the bytes' value.
#[verifier::external_body]
pub(crate) fn fresh_random_bytes() -> (r: Result<[u8; 32], String>) {
    let mut bytes = [0u8; 32];
    match OsRng.try_fill_bytes(&mut bytes) {
        Ok(()) => Ok(bytes),
        Err(e) => Err(e.to_string()),
    }
}

} // verus!
