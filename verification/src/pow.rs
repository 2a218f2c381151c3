//! Powers of two on machine words.
//!
//! Capability sizes are always log2-tagged (`size_bits`), so the byte count
//! of a region is `pow2(size_bits)`.  This module ties the executable shift
//! to vstd's mathematical `pow2`.

use vstd::prelude::*;

verus! {

use vstd::arithmetic::power2::pow2;
use vstd::arithmetic::power2::lemma_pow2_adds;
use vstd::arithmetic::mul::lemma_mul_inequality;
use vstd::bits::lemma_u64_pow2_no_overflow;
use vstd::bits::lemma_u64_shl_is_mul;

/// 2^e bytes, as a machine word.
pub fn pow2_u64(e: u8) -> (r: u64)
    requires
        e < 64,
    ensures
        r == pow2(e as nat),
        r >= 1,
{
    proof {
        lemma_u64_pow2_no_overflow(e as nat);
        lemma_u64_shl_is_mul(1u64, e as u64);
    }
    1u64 << (e as u64)
}

/// `count` objects of 2^small bytes fit in 2^large bytes exactly when
/// `count` is no more than 2^(large - small).
pub proof fn lemma_count_fits_pow2(count: nat, small: nat, large: nat)
    requires
        small <= large,
    ensures
        count * pow2(small) <= pow2(large) <==> count <= pow2((large - small) as nat),
{
    let d = (large - small) as nat;
    lemma_pow2_adds(d, small);
    assert(pow2(large) == pow2(d) * pow2(small));
    vstd::arithmetic::power2::lemma_pow2_pos(small);
    vstd::arithmetic::power2::lemma_pow2_pos(d);
    if count <= pow2(d) {
        lemma_mul_inequality(count as int, pow2(d) as int, pow2(small) as int);
    }
    if count * pow2(small) <= pow2(large) {
        if count > pow2(d) {
            lemma_mul_inequality((pow2(d) + 1) as int, count as int, pow2(small) as int);
            assert((pow2(d) + 1) * pow2(small) == pow2(d) * pow2(small) + pow2(small))
                by (nonlinear_arith);
        }
    }
}

} // verus!
