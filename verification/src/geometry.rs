use vstd::prelude::*;
use vstd::arithmetic::power2::{pow2, lemma_pow2_pos, lemma_pow2_adds};
use vstd::arithmetic::div_mod::lemma_fundamental_div_mod;
use vstd::bits::{lemma_u32_shl_is_mul, lemma_u32_pow2_no_overflow};

verus! {

/// The dimension an image axis has after decoding at reduction level `d`: the
/// full-resolution dimension `u` divided by `2^d`, rounded up.
pub open spec fn spec_effective_dimension(u: nat, d: nat) -> nat {
    if u % pow2(d) > 0 {
        u / pow2(d) + 1
    } else {
        u / pow2(d)
    }
}

/// The effective dimension is the ceiling of `u / 2^d`: it is the least `k`
/// with `k * 2^d >= u`.
pub proof fn lemma_effective_dimension_is_ceil(u: nat, d: nat)
    ensures
        spec_effective_dimension(u, d) * pow2(d) >= u,
        u + pow2(d) > spec_effective_dimension(u, d) * pow2(d),
{
    let p = pow2(d) as int;
    lemma_pow2_pos(d);
    lemma_fundamental_div_mod(u as int, p);
    let q = u as int / p;
    let r = u as int % p;
    if r > 0 {
        assert((q + 1) * p == q * p + p) by (nonlinear_arith);
    } else {
        assert(q * p == u) by {
            assert(u as int == p * q + r);
            assert(p * q == q * p) by (nonlinear_arith);
        }
    }
}

/// Any `k` that satisfies the ceiling characterization is the effective
/// dimension.
pub proof fn lemma_effective_dimension_unique(u: nat, d: nat, k: nat)
    requires
        k * pow2(d) >= u,
        u + pow2(d) > k * pow2(d),
    ensures
        k == spec_effective_dimension(u, d),
{
    let p = pow2(d) as int;
    lemma_pow2_pos(d);
    lemma_effective_dimension_is_ceil(u, d);
    let m = spec_effective_dimension(u, d) as int;
    assert(m == k) by (nonlinear_arith)
        requires
            p > 0,
            m * p >= u,
            u + p > m * p,
            k * p >= u,
            u + p > k * p,
            m >= 0,
            k >= 0,
            u >= 0,
    ;
}

/// Reducing one level further halves the effective dimension, rounded up:
/// decoding at level `d + 1` yields exactly the ceiling of half the level-`d`
/// dimension in each axis.
pub proof fn lemma_effective_dimension_halves(u: nat, d: nat)
    ensures
        spec_effective_dimension(spec_effective_dimension(u, d), 1)
            == spec_effective_dimension(u, d + 1),
{
    let p = pow2(d) as int;
    lemma_pow2_pos(d);
    lemma_pow2_adds(d, 1);
    assert(pow2(1) == 2) by {
        vstd::arithmetic::power2::lemma2_to64();
    }
    let m = spec_effective_dimension(u, d) as int;
    let h = spec_effective_dimension(spec_effective_dimension(u, d), 1) as int;
    lemma_effective_dimension_is_ceil(u, d);
    lemma_effective_dimension_is_ceil(spec_effective_dimension(u, d), 1);
    assert(h * (2 * p) >= u && u + 2 * p > h * (2 * p)) by (nonlinear_arith)
        requires
            p > 0,
            m * p >= u,
            u + p > m * p,
            h * 2 >= m,
            m + 2 > h * 2,
            m >= 0,
            h >= 0,
            u >= 0,
    ;
    lemma_effective_dimension_unique(u, d + 1, h as nat);
}

/// Computes the effective dimension for discard level `d` without floating
/// point: quotient plus one when the remainder is non-zero.
pub fn effective_dimension(u: u32, discard_level: u32) -> (r: u32)
    requires
        discard_level < 32,
    ensures
        r == spec_effective_dimension(u as nat, discard_level as nat),
{
    proof {
        lemma_u32_pow2_no_overflow(discard_level as nat);
        lemma_u32_shl_is_mul(1u32, discard_level);
    }
    let div: u32 = 1u32 << discard_level;
    let quot = u / div;
    let rem = u % div;
    proof {
        lemma_fundamental_div_mod(u as int, div as int);
        if rem > 0 {
            assert(div >= 2);
            assert(quot < u) by (nonlinear_arith)
                requires
                    div >= 2,
                    rem >= 1,
                    u as int == div as int * quot as int + rem as int,
                    quot >= 0,
            ;
        }
    }
    if rem > 0 {
        quot + 1
    } else {
        quot
    }
}

} // verus!
