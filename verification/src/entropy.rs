//! Random bytes, from the operating system.

use rand::RngCore;
use vstd::prelude::*;

verus! {

/// Draws `count` bytes from the operating system's random source with
/// `rand::rngs::OsRng`; nothing where the source fails. The contract claims
/// the length alone: of the bytes themselves nothing can be said.
#[verifier::external_body]
pub(crate) fn random_bytes(count: usize) -> (drawn: Option<Vec<u8>>)
    ensures
        drawn matches Some(bytes) ==> bytes@.len() == count,
{
    let mut bytes = vec![0u8; count];
    match rand::rngs::OsRng.try_fill_bytes(&mut bytes) {
        Ok(()) => Some(bytes),
        Err(_) => None,
    }
}

} // verus!
