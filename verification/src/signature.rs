//! The signature-validation capability that gates every verification.

use vstd::prelude::*;

verus! {

/// A capability answering "is this signature valid?", bound at construction
/// to whatever signature data it validates; biometric matching never feeds
/// into it.
pub trait Validable {
    /// What the capability's answer is; each implementor fixes it.
    spec fn valid(&self) -> bool;

    fn verify(&self) -> (r: bool)
        ensures
            r == self.valid(),
    ;
}

/// A stand-in validator that accepts every signature, for benchmarking and
/// tests; real signature cryptography lives behind the same trait.
pub struct DummySignature;

impl Validable for DummySignature {
    open spec fn valid(&self) -> bool {
        true
    }

    fn verify(&self) -> (r: bool) {
        true
    }
}

/// A stand-in validator that rejects every signature: the counterpart of
/// `DummySignature`, for exercising the signature gate.
pub struct RejectingSignature;

impl Validable for RejectingSignature {
    open spec fn valid(&self) -> bool {
        false
    }

    fn verify(&self) -> (r: bool) {
        false
    }
}

} // verus!
