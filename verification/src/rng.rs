//! Trusted boundary to the pseudo-random generator that synthesizes
//! benchmark templates. Nothing is promised of the values drawn: every
//! consumer of a synthetic template is verified for all values it could hold.

use vstd::prelude::*;
use crate::code::{BYTES_IN_FINGER_CODE, U64_IN_IRIS_CODE};

verus! {

#[verifier::external_type_specification]
#[verifier::external_body]
pub struct ExXoshiro256Plus(rand_xoshiro::Xoshiro256Plus);

/// Relies on rand's `RngExt::fill`, driven by the `Rng` implementation of
/// `rand_xoshiro::Xoshiro256Plus`, to fill a word buffer with random data.
/// The values are random, so nothing is stated about them.
#[verifier::external_body]
pub(crate) fn random_words(rng: &mut rand_xoshiro::Xoshiro256Plus) -> (r: [u64; U64_IN_IRIS_CODE]) {
    let mut buf = [0u64; U64_IN_IRIS_CODE];
    rand::RngExt::fill(rng, &mut buf[..]);
    buf
}

/// Relies on rand's `RngExt::fill`, driven by the `Rng` implementation of
/// `rand_xoshiro::Xoshiro256Plus`, to fill a byte buffer with random data.
/// The values are random, so nothing is stated about them.
#[verifier::external_body]
pub(crate) fn random_bytes(rng: &mut rand_xoshiro::Xoshiro256Plus) -> (r: [u8; BYTES_IN_FINGER_CODE]) {
    let mut buf = [0u8; BYTES_IN_FINGER_CODE];
    rand::RngExt::fill(rng, &mut buf[..]);
    buf
}

} // verus!
