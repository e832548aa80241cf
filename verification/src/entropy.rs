//! Numbers that nothing determines: seeds for new worlds and identifiers
//! for new clients.

use vstd::prelude::*;
use rand::rngs::{OsRng, StdRng};
use rand::{Rng, RngCore, SeedableRng};
use uuid::Builder;

verus! {

/// `StdRng::from_rng` on the operating system's generator, then
/// `Rng::gen`: a seed that the caller cannot foresee, or nothing where the
/// system has no entropy to give. Nothing is claimed of the number.
#[verifier::external_body]
pub(crate) fn fresh_seed() -> Option<u32> {
    match StdRng::from_rng(OsRng) {
        Ok(mut rng) => Some(rng.gen()),
        Err(_) => None,
    }
}

/// `Builder::from_random_bytes` on sixteen bytes of the operating
/// system's generator: a random identifier as one 128-bit number, or
/// nothing where the system has no entropy to give. Nothing is claimed of
/// the number.
#[verifier::external_body]
pub(crate) fn fresh_id() -> Option<u128> {
    let mut bytes = [0u8; 16];
    match OsRng.try_fill_bytes(&mut bytes) {
        Ok(()) => Some(Builder::from_random_bytes(bytes).into_uuid().as_u128()),
        Err(_) => None,
    }
}

} // verus!
