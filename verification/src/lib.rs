//! Biometric template matching with a cryptographic-signature gate.
//!
//! Two template modalities are supported: iris codes, compared by a masked
//! fractional Hamming distance, and finger codes, compared by a sum of squared
//! byte differences. A fixed-capacity enrollment database scans every entry
//! without short-circuiting, so that the scan's running time does not depend
//! on which entry (if any) matches, and a verification succeeds only when at
//! least one entry matches and the supplied signature validates.

pub mod bits;
pub mod code;
pub mod rng;
pub mod signature;
