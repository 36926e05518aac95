//! Population count for 64-bit words, the primitive behind the masked
//! Hamming distance of iris codes.

use vstd::prelude::*;
use vstd::arithmetic::power2::{pow2, lemma_pow2_unfold, lemma2_to64, lemma2_to64_rest};

verus! {

/// Number of set bits in the binary representation of a non-negative integer.
pub open spec fn popcount(x: int) -> int
    decreases x,
{
    if x <= 0 {
        0
    } else {
        x % 2 + popcount(x / 2)
    }
}

pub proof fn lemma_popcount_nonneg(x: int)
    ensures
        popcount(x) >= 0,
    decreases x,
{
    if x > 0 {
        lemma_popcount_nonneg(x / 2);
    }
}

/// The population count of a word, processed one bit per iteration so that
/// the running time does not depend on the word's value.
pub fn count_ones64(x: u64) -> (r: u32)
    ensures
        r == popcount(x as int),
        r <= 64,
{
    let mut v: u64 = x;
    let mut c: u32 = 0;
    let mut i: usize = 0;
    proof {
        lemma2_to64();
        lemma2_to64_rest();
        assert(v < pow2(64));
    }
    while i < 64
        invariant
            i <= 64,
            c <= i,
            c + popcount(v as int) == popcount(x as int),
            v < pow2((64 - i) as nat),
        decreases 64 - i,
    {
        proof {
            lemma_pow2_unfold((64 - i) as nat);
            assert(popcount(v as int) == v % 2 + popcount(v as int / 2));
        }
        c = c + (v % 2) as u32;
        v = v / 2;
        i = i + 1;
    }
    proof {
        lemma2_to64();
        assert(v == 0);
    }
    c
}

} // verus!
