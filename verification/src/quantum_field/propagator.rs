//! Propagators: the rule that decides which FFT grids the position-space
//! propagator accepts.
use vstd::prelude::*;
use vstd::arithmetic::power::lemma_pow0;
use vstd::arithmetic::power2::{lemma_pow2, lemma_pow2_pos, lemma_pow2_unfold, pow2};

verus! {

/// A natural number is a power of two: 1, 2, 4, 8, ...
pub open spec fn is_power_of_two(n: nat) -> bool
    decreases n,
{
    if n == 0 {
        false
    } else if n == 1 {
        true
    } else if n % 2 == 1 {
        false
    } else {
        is_power_of_two(n / 2)
    }
}

/// A number passes the power-of-two test exactly when it is 2^k for some k:
/// every number with an odd factor greater than 1 is rejected.
pub proof fn lemma_power_of_two_is_pow2(n: nat)
    ensures
        is_power_of_two(n) <==> exists|k: nat| n == pow2(k),
{
    if is_power_of_two(n) {
        lemma_power_of_two_has_exponent(n);
    }
    if exists|k: nat| n == pow2(k) {
        let k = choose|k: nat| n == pow2(k);
        lemma_pow2_is_power_of_two(n, k);
    }
}

proof fn lemma_power_of_two_has_exponent(n: nat)
    requires
        is_power_of_two(n),
    ensures
        exists|k: nat| n == pow2(k),
    decreases n,
{
    if n == 1 {
        lemma_pow2(0);
        lemma_pow0(2);
        assert(n == pow2(0));
    } else {
        lemma_power_of_two_has_exponent(n / 2);
        let k = choose|k: nat| n / 2 == pow2(k);
        lemma_pow2_unfold(k + 1);
        assert(n == pow2(k + 1));
    }
}

proof fn lemma_pow2_is_power_of_two(n: nat, k: nat)
    requires
        n == pow2(k),
    ensures
        is_power_of_two(n),
    decreases k,
{
    if k == 0 {
        lemma_pow2(0);
        lemma_pow0(2);
    } else {
        lemma_pow2_unfold(k);
        lemma_pow2_pos((k - 1) as nat);
        lemma_pow2_is_power_of_two(n / 2, (k - 1) as nat);
    }
}

/// Whether `n_points` is an acceptable FFT resolution for the position-space
/// propagator: a positive power of two.
pub fn is_valid_fft_length(n_points: usize) -> (valid: bool)
    ensures
        valid == is_power_of_two(n_points as nat),
        valid == exists|k: nat| n_points as nat == pow2(k),
{
    proof {
        lemma_power_of_two_is_pow2(n_points as nat);
    }
    if n_points == 0 {
        return false;
    }
    let mut m: usize = n_points;
    while m > 1 && m % 2 == 0
        invariant
            m >= 1,
            is_power_of_two(m as nat) == is_power_of_two(n_points as nat),
        decreases m,
    {
        m = m / 2;
    }
    m == 1
}

} // verus!
