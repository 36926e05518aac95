//! Biometric templates and the enrollment database.
//!
//! An iris code is a pair of fixed-length bit arrays, data and validity mask;
//! two iris codes match when their fractional Hamming distance, restricted to
//! bit positions usable by both, lies below a fixed threshold. A finger code
//! is a fixed-length byte vector; two finger codes match when the sum of
//! squared byte differences lies below a fixed threshold. The database holds
//! a fixed number of templates of one modality and scans all of them on every
//! verification, never returning early.

use vstd::prelude::*;
use crate::bits::{count_ones64, popcount};
use crate::rng::{random_bytes, random_words};
use crate::signature::Validable;

verus! {

broadcast use vstd::array::group_array_axioms;

pub const BITS_IN_IRIS_CODE: usize = 10240;

pub const U64_IN_IRIS_CODE: usize = BITS_IN_IRIS_CODE / 64;

pub const BYTES_IN_FINGER_CODE: usize = 640;

/// Two finger codes match when their sum of squared byte differences lies
/// strictly below this threshold.
pub const FINGER_CODE_MATCH_THRESHOLD: u32 = 1_000_000;

/// The iris score is `IRIS_SCORE_SCALE * distance / (validBits + 1)`.
pub const IRIS_SCORE_SCALE: u64 = 10_000;

/// Two iris codes match when their score lies strictly below the threshold
/// `IRIS_CODE_MATCH_THRESHOLD_NUM / IRIS_CODE_MATCH_THRESHOLD_DEN` (0.4).
pub const IRIS_CODE_MATCH_THRESHOLD_NUM: u64 = 4;

pub const IRIS_CODE_MATCH_THRESHOLD_DEN: u64 = 10;

/// A biometric template with a modality-specific match predicate.
pub trait BiometricCode: Sized {
    /// Whether this template matches the other, as the modality defines it.
    spec fn match_spec(&self, other: &Self) -> bool;

    fn do_match(&self, other: &Self) -> (r: bool)
        ensures
            r == self.match_spec(other),
    ;
}

/// A system that answers whether a probe template passes verification,
/// given the verdict of a signature validator.
pub trait BiometricCodeSystem<T: BiometricCode> {
    /// Whether the system accepts the probe, given the validator's verdict.
    spec fn verify_spec(&self, code: &T, signature_valid: bool) -> bool;

    fn verify<V: Validable>(&self, code: &T, signature: &V) -> (r: bool)
        ensures
            r == self.verify_spec(code, signature.valid()),
    ;
}

/// A source of synthetic instances, for benchmarking and tests only; real
/// enrollment would bulk-load templates through the same shapes.
pub trait RandomlyGenerated: Sized {
    fn random(rng: &mut rand_xoshiro::Xoshiro256Plus) -> Self;
}

/// An iris template: a fixed-length bit array of biometric data and a mask of
/// the same length marking which bit positions are valid (for example, not
/// occluded). A zero mask bit excludes that position from every comparison.
#[derive(Debug, Clone, Copy)]
pub struct IrisCode {
    pub biometric_data: [u64; U64_IN_IRIS_CODE],
    pub mask: [u64; U64_IN_IRIS_CODE],
}

/// The bit positions within one word that are usable by both codes and where
/// the underlying data disagrees.
pub open spec fn masked_diff_word(d1: u64, m1: u64, d2: u64, m2: u64) -> u64 {
    ((d1 & m1) & m2) ^ ((d2 & m1) & m2)
}

/// Masked Hamming distance between two iris codes, restricted to the first
/// `n` words.
pub open spec fn iris_distance_upto(a: IrisCode, b: IrisCode, n: int) -> int
    decreases n,
{
    if n <= 0 {
        0
    } else {
        iris_distance_upto(a, b, n - 1) + popcount(
            masked_diff_word(
                a.biometric_data@[n - 1],
                a.mask@[n - 1],
                b.biometric_data@[n - 1],
                b.mask@[n - 1],
            ) as int,
        )
    }
}

/// Count of bit positions valid in either code (union of the masks),
/// restricted to the first `n` words; the normalization denominator.
pub open spec fn iris_valid_bits_upto(a: IrisCode, b: IrisCode, n: int) -> int
    decreases n,
{
    if n <= 0 {
        0
    } else {
        iris_valid_bits_upto(a, b, n - 1) + popcount((a.mask@[n - 1] | b.mask@[n - 1]) as int)
    }
}

/// Masked Hamming distance between two iris codes.
pub open spec fn iris_distance(a: IrisCode, b: IrisCode) -> int {
    iris_distance_upto(a, b, U64_IN_IRIS_CODE as int)
}

/// Count of bit positions valid in either iris code.
pub open spec fn iris_valid_bits(a: IrisCode, b: IrisCode) -> int {
    iris_valid_bits_upto(a, b, U64_IN_IRIS_CODE as int)
}

/// Whether two iris codes match: the fractional score
/// `IRIS_SCORE_SCALE * distance / (validBits + 1)` (the `+ 1` avoids dividing
/// by zero when both masks are all zero) lies strictly below the threshold
/// `IRIS_CODE_MATCH_THRESHOLD_NUM / IRIS_CODE_MATCH_THRESHOLD_DEN`.
/// Cross-multiplying gives the integer inequality stated here, which keeps
/// the comparison exact.
pub open spec fn iris_match(a: IrisCode, b: IrisCode) -> bool {
    IRIS_CODE_MATCH_THRESHOLD_DEN * IRIS_SCORE_SCALE * iris_distance(a, b)
        < IRIS_CODE_MATCH_THRESHOLD_NUM * (iris_valid_bits(a, b) + 1)
}

impl Default for IrisCode {
    /// The all-zero template: no data bits set and an empty mask.
    fn default() -> (r: Self)
        ensures
            forall|i: int| 0 <= i < U64_IN_IRIS_CODE ==> r.biometric_data@[i] == 0u64,
            forall|i: int| 0 <= i < U64_IN_IRIS_CODE ==> r.mask@[i] == 0u64,
    {
        IrisCode {
            biometric_data: [0u64; U64_IN_IRIS_CODE],
            mask: [0u64; U64_IN_IRIS_CODE],
        }
    }
}

impl BiometricCode for IrisCode {
    open spec fn match_spec(&self, other: &Self) -> bool {
        iris_match(*self, *other)
    }

    fn do_match(&self, other: &Self) -> (r: bool) {
        let mut distance: u32 = 0;
        let mut i: usize = 0;
        while i < U64_IN_IRIS_CODE
            invariant
                i <= U64_IN_IRIS_CODE,
                distance <= 64 * i,
                distance == iris_distance_upto(*self, *other, i as int),
            decreases U64_IN_IRIS_CODE - i,
        {
            let w = ((self.biometric_data[i] & self.mask[i]) & other.mask[i])
                ^ ((other.biometric_data[i] & self.mask[i]) & other.mask[i]);
            let c = count_ones64(w);
            distance = distance + c;
            i = i + 1;
        }
        let mut sz: u32 = 0;
        let mut j: usize = 0;
        while j < U64_IN_IRIS_CODE
            invariant
                j <= U64_IN_IRIS_CODE,
                sz <= 64 * j,
                sz == iris_valid_bits_upto(*self, *other, j as int),
            decreases U64_IN_IRIS_CODE - j,
        {
            let c = count_ones64(self.mask[j] | other.mask[j]);
            sz = sz + c;
            j = j + 1;
        }
        (IRIS_CODE_MATCH_THRESHOLD_DEN * IRIS_SCORE_SCALE) * (distance as u64)
            < IRIS_CODE_MATCH_THRESHOLD_NUM * ((sz as u64) + 1)
    }
}

impl RandomlyGenerated for IrisCode {
    fn random(rng: &mut rand_xoshiro::Xoshiro256Plus) -> Self {
        IrisCode { biometric_data: random_words(rng), mask: random_words(rng) }
    }
}

/// A fingerprint template: a fixed-length byte vector where each byte is one
/// scalar feature; every byte contributes to the distance, there is no mask.
#[derive(Debug, Clone, Copy)]
pub struct FingerCode {
    pub biometric_data: [u8; BYTES_IN_FINGER_CODE],
}

/// Sum of squared byte differences over the first `n` positions.
pub open spec fn ssd_upto(a: Seq<u8>, b: Seq<u8>, n: int) -> int
    decreases n,
{
    if n <= 0 {
        0
    } else {
        ssd_upto(a, b, n - 1) + (a[n - 1] - b[n - 1]) * (a[n - 1] - b[n - 1])
    }
}

/// Sum of squared byte differences between two finger codes.
pub open spec fn finger_ssd(a: FingerCode, b: FingerCode) -> int {
    ssd_upto(a.biometric_data@, b.biometric_data@, BYTES_IN_FINGER_CODE as int)
}

/// Whether two finger codes match: their sum of squared differences lies
/// strictly below `FINGER_CODE_MATCH_THRESHOLD`. No normalization by length,
/// since every finger code has the same fixed length.
pub open spec fn finger_match(a: FingerCode, b: FingerCode) -> bool {
    finger_ssd(a, b) < FINGER_CODE_MATCH_THRESHOLD
}

impl Default for FingerCode {
    /// The all-zero template.
    fn default() -> (r: Self)
        ensures
            forall|i: int| 0 <= i < BYTES_IN_FINGER_CODE ==> r.biometric_data@[i] == 0u8,
    {
        FingerCode { biometric_data: [0u8; BYTES_IN_FINGER_CODE] }
    }
}

impl BiometricCode for FingerCode {
    open spec fn match_spec(&self, other: &Self) -> bool {
        finger_match(*self, *other)
    }

    fn do_match(&self, other: &Self) -> (r: bool) {
        let mut acc: u32 = 0;
        let mut i: usize = 0;
        while i < BYTES_IN_FINGER_CODE
            invariant
                i <= BYTES_IN_FINGER_CODE,
                acc <= 65025 * i,
                acc == ssd_upto(self.biometric_data@, other.biometric_data@, i as int),
            decreases BYTES_IN_FINGER_CODE - i,
        {
            let x = self.biometric_data[i] as u32;
            let y = other.biometric_data[i] as u32;
            let d: u32 = if x >= y {
                x - y
            } else {
                y - x
            };
            proof {
                let xi = x as int;
                let yi = y as int;
                assert(d <= 255);
                assert(d * d == (xi - yi) * (xi - yi) && d * d <= 65025) by (nonlinear_arith)
                    requires
                        (d == xi - yi || d == yi - xi) && d <= 255,
                ;
            }
            acc = acc + d * d;
            i = i + 1;
        }
        acc < FINGER_CODE_MATCH_THRESHOLD
    }
}

impl RandomlyGenerated for FingerCode {
    fn random(rng: &mut rand_xoshiro::Xoshiro256Plus) -> Self {
        FingerCode { biometric_data: random_bytes(rng) }
    }
}

/// Relies on `std::hint::black_box`: it returns its argument unchanged
/// (here as the numeral of the comparison's outcome) while acting as an
/// optimization barrier, so no per-entry comparison of the database scan can
/// be elided or folded into a short-circuit.
#[verifier::external_body]
fn barrier(b: bool) -> (r: usize)
    ensures
        r == (if b {
            1usize
        } else {
            0usize
        }),
{
    std::hint::black_box(b as usize)
}

/// A fixed-capacity enrollment database: exactly `N` templates of one
/// modality, all slots populated, owned by the database.
#[derive(Debug, Clone, Copy)]
pub struct BiometricCodeSystemDatabase<const N: usize, T: BiometricCode> {
    database: [T; N],
}

impl<const N: usize, T: BiometricCode> BiometricCodeSystemDatabase<N, T> {
    /// The enrolled templates, in slot order.
    pub closed spec fn entries(&self) -> Seq<T> {
        self.database@
    }
}

impl<const N: usize, T: BiometricCode + Default + Copy> Default for BiometricCodeSystemDatabase<
    N,
    T,
> {
    /// A database whose every slot holds the modality's default template:
    /// all slots are equal, and each holds a value the element type's
    /// `default` could have returned.
    fn default() -> (r: Self)
        ensures
            forall|i: int, j: int|
                0 <= i < N && 0 <= j < N ==> r.entries()[i] == r.entries()[j],
            forall|i: int|
                0 <= i < N ==> #[trigger] call_ensures(T::default, (), r.entries()[i]),
    {
        BiometricCodeSystemDatabase { database: [T::default(); N] }
    }
}

impl<const N: usize, T: BiometricCode> BiometricCodeSystem<T> for BiometricCodeSystemDatabase<
    N,
    T,
> {
    /// The probe passes exactly when at least one enrolled template matches
    /// it and the signature validates.
    open spec fn verify_spec(&self, code: &T, signature_valid: bool) -> bool {
        (exists|i: int| 0 <= i < N && code.match_spec(&self.entries()[i])) && signature_valid
    }

    /// Scans every entry unconditionally: each comparison runs behind an
    /// optimization barrier and is folded into a running count with a plain
    /// addition, never a short-circuiting combinator, so the scan's running
    /// time does not depend on which entry (if any) matches.
    fn verify<V: Validable>(&self, code: &T, signature: &V) -> (r: bool) {
        let mut matches: usize = 0;
        let mut idx: usize = 0;
        while idx < N
            invariant
                idx <= N,
                matches <= idx,
                (matches > 0) == exists|i: int|
                    0 <= i < idx && code.match_spec(&self.entries()[i]),
            decreases N - idx,
        {
            let m = code.do_match(&self.database[idx]);
            matches = matches + barrier(m);
            proof {
                assert((exists|i: int|
                    0 <= i < idx + 1 && code.match_spec(&self.entries()[i])) <==> ((exists|i: int|
                    0 <= i < idx && code.match_spec(&self.entries()[i])) || code.match_spec(
                    &self.entries()[idx as int],
                ))) by {
                    if exists|i: int| 0 <= i < idx + 1 && code.match_spec(&self.entries()[i]) {
                        let wi = choose|i: int|
                            0 <= i < idx + 1 && code.match_spec(&self.entries()[i]);
                        if wi < idx {
                            assert(0 <= wi < idx && code.match_spec(&self.entries()[wi]));
                        }
                    }
                };
            }
            idx = idx + 1;
        }
        (matches > 0) && signature.verify()
    }
}

impl<const N: usize, T: BiometricCode + RandomlyGenerated + Copy> RandomlyGenerated for BiometricCodeSystemDatabase<
    N,
    T,
> {
    fn random(rng: &mut rand_xoshiro::Xoshiro256Plus) -> Self {
        let code = T::random(rng);
        BiometricCodeSystemDatabase { database: [code; N] }
    }
}

proof fn lemma_iris_distance_self_upto(a: IrisCode, n: int)
    ensures
        iris_distance_upto(a, a, n) == 0,
    decreases n,
{
    if n > 0 {
        lemma_iris_distance_self_upto(a, n - 1);
        let d = a.biometric_data@[n - 1];
        let m = a.mask@[n - 1];
        assert(masked_diff_word(d, m, d, m) == 0) by (bit_vector);
    }
}

proof fn lemma_iris_valid_bits_nonneg(a: IrisCode, b: IrisCode, n: int)
    ensures
        iris_valid_bits_upto(a, b, n) >= 0,
    decreases n,
{
    if n > 0 {
        lemma_iris_valid_bits_nonneg(a, b, n - 1);
        crate::bits::lemma_popcount_nonneg((a.mask@[n - 1] | b.mask@[n - 1]) as int);
    }
}

/// Self-match law: every iris code matches itself. Its masked distance to
/// itself is 0, so the score is 0 — even when the mask is entirely zero,
/// where the zero score is a deliberate degenerate-case policy.
pub proof fn lemma_iris_self_match(a: IrisCode)
    ensures
        a.match_spec(&a),
{
    lemma_iris_distance_self_upto(a, U64_IN_IRIS_CODE as int);
    lemma_iris_valid_bits_nonneg(a, a, U64_IN_IRIS_CODE as int);
}

proof fn lemma_iris_distance_sym_upto(a: IrisCode, b: IrisCode, n: int)
    ensures
        iris_distance_upto(a, b, n) == iris_distance_upto(b, a, n),
    decreases n,
{
    if n > 0 {
        lemma_iris_distance_sym_upto(a, b, n - 1);
        let d1 = a.biometric_data@[n - 1];
        let m1 = a.mask@[n - 1];
        let d2 = b.biometric_data@[n - 1];
        let m2 = b.mask@[n - 1];
        assert(masked_diff_word(d1, m1, d2, m2) == masked_diff_word(d2, m2, d1, m1))
            by (bit_vector);
    }
}

proof fn lemma_iris_valid_bits_sym_upto(a: IrisCode, b: IrisCode, n: int)
    ensures
        iris_valid_bits_upto(a, b, n) == iris_valid_bits_upto(b, a, n),
    decreases n,
{
    if n > 0 {
        lemma_iris_valid_bits_sym_upto(a, b, n - 1);
        let m1 = a.mask@[n - 1];
        let m2 = b.mask@[n - 1];
        assert((m1 | m2) == (m2 | m1)) by (bit_vector);
    }
}

/// Symmetry law: iris matching does not depend on argument order, by the
/// algebraic symmetry of the XOR, AND and OR terms it is built from.
pub proof fn lemma_iris_match_symmetric(a: IrisCode, b: IrisCode)
    ensures
        a.match_spec(&b) == b.match_spec(&a),
{
    lemma_iris_distance_sym_upto(a, b, U64_IN_IRIS_CODE as int);
    lemma_iris_valid_bits_sym_upto(a, b, U64_IN_IRIS_CODE as int);
}

proof fn lemma_ssd_self_upto(s: Seq<u8>, n: int)
    ensures
        ssd_upto(s, s, n) == 0,
    decreases n,
{
    if n > 0 {
        lemma_ssd_self_upto(s, n - 1);
        let v = s[n - 1] as int;
        assert((v - v) * (v - v) == 0) by (nonlinear_arith);
    }
}

/// Self-match law: every finger code matches itself, its sum of squared
/// differences to itself being 0, below any positive threshold.
pub proof fn lemma_finger_self_match(a: FingerCode)
    ensures
        a.match_spec(&a),
{
    lemma_ssd_self_upto(a.biometric_data@, BYTES_IN_FINGER_CODE as int);
}

proof fn lemma_ssd_sym_upto(s: Seq<u8>, t: Seq<u8>, n: int)
    ensures
        ssd_upto(s, t, n) == ssd_upto(t, s, n),
    decreases n,
{
    if n > 0 {
        lemma_ssd_sym_upto(s, t, n - 1);
        let x = s[n - 1] as int;
        let y = t[n - 1] as int;
        assert((x - y) * (x - y) == (y - x) * (y - x)) by (nonlinear_arith);
    }
}

/// Symmetry law: finger matching does not depend on argument order, since
/// each squared difference is unchanged when the operands swap.
pub proof fn lemma_finger_match_symmetric(a: FingerCode, b: FingerCode)
    ensures
        a.match_spec(&b) == b.match_spec(&a),
{
    lemma_ssd_sym_upto(a.biometric_data@, b.biometric_data@, BYTES_IN_FINGER_CODE as int);
}

/// Gate law: a verification can only succeed when the signature validates;
/// with an invalid signature the outcome is negative whatever the database
/// holds, even if every entry matches the probe.
pub proof fn lemma_verify_needs_signature<const N: usize, T: BiometricCode>(
    db: &BiometricCodeSystemDatabase<N, T>,
    code: &T,
)
    ensures
        !db.verify_spec(code, false),
{
}

/// Gate law: a verification can only succeed when some entry matches; if no
/// enrolled template matches the probe, the outcome is negative even with a
/// valid signature.
pub proof fn lemma_verify_needs_match<const N: usize, T: BiometricCode>(
    db: &BiometricCodeSystemDatabase<N, T>,
    code: &T,
)
    requires
        forall|i: int| 0 <= i < N ==> !code.match_spec(&db.entries()[i]),
    ensures
        !db.verify_spec(code, true),
{
}

} // verus!
