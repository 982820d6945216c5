//! The process-wide entropy source: the thread-local generator of the rand
//! crate.
//!
//! Of a value drawn here only its range is known. Every caller is verified
//! for all the values that may come back, and no two draws are taken to be
//! equal.

use rand::RngCore;
use vstd::prelude::*;

verus! {

/// Draws one 16-bit value with `rand::random`, which samples the thread-local
/// generator. Any value may come back.
#[verifier::external_body]
pub(crate) fn random_u16() -> (sample: u16) {
    rand::random::<u16>()
}

/// Draws one 16-bit value other than zero with `rand::random`, asked for a
/// `NonZeroU16`: rand samples the generator until a value other than zero
/// comes up, however many draws that takes. Any value but zero may come back.
#[verifier::external_body]
pub(crate) fn random_nonzero_u16() -> (sample: u16)
    ensures
        sample != 0,
{
    rand::random::<core::num::NonZeroU16>().get()
}

/// Draws six octets with `RngCore::fill_bytes` on the thread-local generator
/// that `rand::rng` hands out. Any six octets may come back.
#[verifier::external_body]
pub(crate) fn random_octets() -> (octets: [u8; 6]) {
    let mut octets = [0u8; 6];
    rand::rng().fill_bytes(&mut octets);
    octets
}

} // verus!
