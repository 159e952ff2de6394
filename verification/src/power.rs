//! Powers of two with an exponent that is not positive, as coordinates.

use vstd::prelude::*;
use vstd::arithmetic::div_mod::lemma_div_by_multiple;
use vstd::arithmetic::div_mod::lemma_div_denominator;
use vstd::arithmetic::power2::pow2;
use vstd::arithmetic::power2::lemma2_to64;
use vstd::arithmetic::power2::lemma2_to64_rest;
use vstd::arithmetic::power2::lemma_pow2_adds;
use vstd::arithmetic::power2::lemma_pow2_pos;
use vstd::arithmetic::power2::lemma_pow2_subtracts;
use vstd::arithmetic::power2::lemma_pow2_unfold;

verus! {

/// Number of fraction bits of a coordinate: one unit is 2^-62.
pub const FRACTION_BITS: u32 = 62;

/// The coordinate 1.
pub const ONE: u64 = 0x4000_0000_0000_0000;

/// 2^n as a coordinate, for `n` that is not positive: 2^62 divided by
/// 2^-n, rounded down.
pub open spec fn power_of_2_spec(n: int) -> nat
    recommends
        n <= 0,
{
    pow2(FRACTION_BITS as nat) / pow2((-n) as nat)
}

/// While the exponent is not below -62, the coordinate of 2^n is exact: it
/// is 2^(62 + n) units, and 2^-n times as much is the coordinate 1.
pub proof fn lemma_power_of_2_exact(n: int)
    requires
        -(FRACTION_BITS as int) <= n <= 0,
    ensures
        power_of_2_spec(n) == pow2((FRACTION_BITS + n) as nat),
        power_of_2_spec(n) * pow2((-n) as nat) == ONE,
{
    lemma2_to64_rest();
    lemma_pow2_subtracts((-n) as nat, FRACTION_BITS as nat);
    lemma_pow2_adds((FRACTION_BITS + n) as nat, (-n) as nat);
}

/// Dividing a magnitude by 2^i, as a rotation does, is multiplying it by
/// the coordinate of 2^-i: both give the same magnitude, rounded down.
pub proof fn lemma_scaling_down_is_multiplying(magnitude: nat, i: nat)
    requires
        i <= FRACTION_BITS,
    ensures
        magnitude / pow2(i) == (magnitude * power_of_2_spec(-(i as int))) / (ONE as nat),
{
    let factor = power_of_2_spec(-(i as int));
    lemma_power_of_2_exact(-(i as int));
    lemma_pow2_pos(i);
    lemma_div_denominator((magnitude * factor) as int, factor as int, pow2(i) as int);
    lemma_div_by_multiple(magnitude as int, factor as int);
}

/// 2^n as a coordinate, by halving the coordinate 1 as often as the
/// exponent says.
pub fn power_of_2(n: i32) -> (result: u64)
    requires
        n <= 0,
    ensures
        result == power_of_2_spec(n as int),
        n >= -(FRACTION_BITS as int) ==> result * pow2((-n) as nat) == ONE,
{
    let mut result: u64 = ONE;
    let mut exponent: i32 = 0;
    proof {
        lemma2_to64();
        lemma2_to64_rest();
        assert(power_of_2_spec(0) == pow2(FRACTION_BITS as nat) / 1);
    }
    while exponent > n
        invariant
            n <= exponent <= 0,
            result == power_of_2_spec(exponent as int),
        decreases exponent - n,
    {
        proof {
            let halvings = (-exponent) as nat;
            lemma_pow2_pos(halvings);
            lemma_pow2_unfold(halvings + 1);
            lemma_div_denominator(pow2(FRACTION_BITS as nat) as int, pow2(halvings) as int, 2);
        }
        result = result / 2;
        exponent = exponent - 1;
    }
    proof {
        if n >= -(FRACTION_BITS as int) {
            lemma_power_of_2_exact(n as int);
        }
    }
    result
}

} // verus!
