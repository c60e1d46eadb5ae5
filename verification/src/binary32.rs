//! Rounding to binary32, in integers.
//!
//! One number that the library computes, how many frames a jitter sequence takes to repeat, is
//! defined by binary32 arithmetic. What that arithmetic gives is stated here over exact integers:
//! a quotient is rounded to a significand of 24 bits, to the nearest one and to the even one of two
//! that are equally near.

use vstd::arithmetic::power2::{lemma_pow2_adds, lemma_pow2_pos, lemma_pow2_unfold, pow2};
use vstd::prelude::*;

verus! {

/// `n / d` rounded to the nearest integer, to the even one of two that are equally near.
pub open spec fn nearest_even(n: nat, d: nat) -> nat {
    let quotient = n / d;
    let remainder = n % d;
    if 2 * remainder < d || (2 * remainder == d && quotient % 2 == 0) {
        quotient
    } else {
        quotient + 1
    }
}

/// Whether `n / d` has its leading bit at place `23 + k`, so that its significand counts in units of
/// two to the `k`.
pub open spec fn in_binade(n: nat, d: nat, k: nat) -> bool {
    0x80_0000 * (d * pow2(k)) <= n < 0x100_0000 * (d * pow2(k))
}

/// The exponent of `n / d` rounded to binary32: its unit in the last place is two to this power.
pub open spec fn exponent(n: nat, d: nat) -> nat {
    choose|k: nat| in_binade(n, d, k)
}

/// The significand of `n / d` rounded to binary32.
pub open spec fn significand(n: nat, d: nat) -> nat {
    nearest_even(n, d * pow2(exponent(n, d)))
}

/// A whole number converted to binary32.
pub open spec fn whole(n: nat) -> nat {
    if n < 0x100_0000 {
        n
    } else {
        significand(n, 1) * pow2(exponent(n, 1))
    }
}

/// A quotient has no second, larger exponent.
proof fn no_larger_exponent(n: nat, d: nat, j: nat, k: nat)
    requires
        in_binade(n, d, j),
        j < k,
    ensures
        !in_binade(n, d, k),
{
    lemma_pow2_adds((j + 1) as nat, (k - j - 1) as nat);
    lemma_pow2_unfold((j + 1) as nat);
    lemma_pow2_pos((k - j - 1) as nat);
    let low = pow2(j);
    let rest = pow2((k - j - 1) as nat);
    assert(d * pow2(k) >= 2 * (d * low)) by (nonlinear_arith)
        requires
            pow2(k) == (2 * low) * rest,
            rest >= 1,
            d >= 0,
            low >= 0,
    ;
}

/// A quotient has one exponent only.
proof fn exponent_is_unique(n: nat, d: nat, k: nat)
    requires
        in_binade(n, d, k),
    ensures
        exponent(n, d) == k,
{
    let chosen = exponent(n, d);
    if chosen < k {
        no_larger_exponent(n, d, chosen, k);
    } else if k < chosen {
        no_larger_exponent(n, d, k, chosen);
    }
}

fn nearest_even_of(n: u128, d: u128) -> (r: u128)
    requires
        0 < d,
        n < 0x4000_0000_0000_0000_0000_0000_0000_0000,
        d < 0x4000_0000_0000_0000_0000_0000_0000_0000,
    ensures
        r == nearest_even(n as nat, d as nat),
{
    let quotient: u128 = n / d;
    let remainder: u128 = n % d;
    assert(quotient <= n) by (nonlinear_arith)
        requires
            quotient == n / d,
            d > 0,
    ;
    if 2 * remainder < d || (2 * remainder == d && quotient % 2 == 0) {
        quotient
    } else {
        quotient + 1
    }
}

/// The significand and the exponent of `n / d`.
fn round(n: u128, d: u128) -> (r: (u128, u32))
    requires
        0 < d,
        0x80_0000 * d <= n,
        n < 0x1_0000_0000_0000_0000_0000_0000,
    ensures
        in_binade(n as nat, d as nat, r.1 as nat),
        r.0 == significand(n as nat, d as nat),
        r.1 == exponent(n as nat, d as nat),
        r.1 < 97,
        0x80_0000 <= r.0 <= 0x100_0000,
{
    let mut unit: u128 = d;
    let mut k: u32 = 0;
    proof {
        vstd::arithmetic::power2::lemma2_to64();
    }
    while n >= 0x100_0000 * unit
        invariant
            0 < d,
            unit == d * pow2(k as nat),
            unit > 0,
            0x80_0000 * unit <= n,
            n < 0x1_0000_0000_0000_0000_0000_0000,
            k < unit,
            unit < 0x1_0000_0000_0000_0000_0000_0000,
            pow2(k as nat) <= unit,
            k < 97,
        decreases n - unit,
    {
        proof {
            lemma_pow2_unfold((k + 1) as nat);
            let p = pow2(k as nat);
            assert(d * (2 * p) == 2 * (d * p)) by (nonlinear_arith);
            if k == 96 {
                lemma_pow2_adds(64, 32);
                vstd::arithmetic::power2::lemma2_to64();
            }
        }
        unit = 2 * unit;
        k = k + 1;
    }
    proof {
        exponent_is_unique(n as nat, d as nat, k as nat);
        assert(0x80_0000 <= n / unit < 0x100_0000) by (nonlinear_arith)
            requires
                0x80_0000 * unit <= n < 0x100_0000 * unit,
                unit > 0,
        ;
    }
    (nearest_even_of(n, unit), k)
}

/// Converts a whole number to binary32.
fn whole_of(n: u32) -> (r: u64)
    ensures
        r == whole(n as nat),
        r <= 0x1_0000_0000,
        n > 0 ==> r > 0,
{
    if n < 0x100_0000 {
        n as u64
    } else {
        let (m, k) = round(n as u128, 1);
        proof {
            vstd::arithmetic::power2::lemma2_to64();
            if k > 8 {
                lemma_pow2_adds(9, (k - 9) as nat);
                lemma_pow2_pos((k - 9) as nat);
                let p = pow2((k - 9) as nat);
                assert(0x200 * p >= 0x200) by (nonlinear_arith)
                    requires
                        p >= 1,
                ;
            }
        }
        shifted(m as u64, k)
    }
}

/// `m` times two to the `k`.
fn shifted(m: u64, k: u32) -> (r: u64)
    requires
        k <= 8,
        m <= 0x100_0000,
    ensures
        r == m * pow2(k as nat),
        r <= 0x1_0000_0000,
        m > 0 ==> r > 0,
    decreases k,
{
    proof {
        vstd::arithmetic::power2::lemma2_to64();
    }
    if k == 0 {
        m
    } else {
        proof {
            lemma_pow2_unfold(k as nat);
            let p = pow2((k - 1) as nat);
            assert(m * (2 * p) == 2 * (m * p)) by (nonlinear_arith);
            assert(m * p <= 0x8000_0000) by (nonlinear_arith)
                requires
                    m <= 0x100_0000,
                    p <= 128,
            ;
        }
        2 * shifted(m, k - 1)
    }
}

/// `m` times two to the `s`, over two to the 112, without its fraction.
proof fn scaled_down(m: nat, s: nat)
    ensures
        s >= 112 ==> m * pow2(s) / pow2(112) == m * pow2((s - 112) as nat),
        s < 112 ==> m * pow2(s) / pow2(112) == m / pow2((112 - s) as nat),
{
    lemma_pow2_pos(112);
    if s >= 112 {
        let up = pow2((s - 112) as nat);
        lemma_pow2_adds((s - 112) as nat, 112);
        vstd::arithmetic::mul::lemma_mul_is_associative(m as int, up as int, pow2(112) as int);
        vstd::arithmetic::div_mod::lemma_div_by_multiple((m * up) as int, pow2(112) as int);
    } else {
        let down = pow2((112 - s) as nat);
        lemma_pow2_pos(s);
        lemma_pow2_pos((112 - s) as nat);
        lemma_pow2_adds(s, (112 - s) as nat);
        vstd::arithmetic::div_mod::lemma_div_denominator(
            (m * pow2(s)) as int,
            pow2(s) as int,
            down as int,
        );
        vstd::arithmetic::div_mod::lemma_div_by_multiple(m as int, pow2(s) as int);
    }
}

/// `8 * r * r` cut to a whole number of 32 bits, where `r` is the quotient of `upscaled` and
/// `rendered` and every operation is a binary32 one. The quotient is scaled by two to the 56, so
/// that its exponent is never negative.
pub open spec fn eight_ratio_squared(upscaled: nat, rendered: nat) -> nat {
    if upscaled == 0 {
        0
    } else if rendered == 0 {
        u32::MAX as nat
    } else {
        let n = whole(upscaled) * pow2(56);
        let d = whole(rendered);
        let m = significand(n, d);
        let product = 8 * m * m;
        let scaled = significand(product, 1) * pow2(
            exponent(product, 1) + 2 * exponent(n, d),
        ) / pow2(112);
        if scaled < u32::MAX {
            scaled
        } else {
            u32::MAX as nat
        }
    }
}

/// Computes [`eight_ratio_squared`].
pub fn eight_ratio_squared_of(upscaled: u32, rendered: u32) -> (r: u32)
    ensures
        r == eight_ratio_squared(upscaled as nat, rendered as nat),
{
    if upscaled == 0 {
        return 0;
    }
    if rendered == 0 {
        return u32::MAX;
    }
    proof {
        vstd::arithmetic::power2::lemma2_to64();
        lemma_pow2_adds(32, 24);
    }
    let n: u128 = whole_of(upscaled) as u128 * 0x100_0000_0000_0000;
    let (m, k) = round(n, whole_of(rendered) as u128);
    assert(0x2_0000_0000_0000 <= 8 * m * m <= 0x8_0000_0000_0000) by (nonlinear_arith)
        requires
            0x80_0000 <= m <= 0x100_0000,
    ;
    assert(8 * m <= 0x800_0000);
    let product: u128 = 8 * m * m;
    let (sig, exp) = round(product, 1);
    let places: u32 = exp + 2 * k;
    proof {
        scaled_down(sig as nat, places as nat);
    }
    if places >= 112 {
        if places - 112 > 8 {
            proof {
                let over = (places - 112 - 9) as nat;
                lemma_pow2_adds(9, over);
                lemma_pow2_pos(over);
                let p = pow2(over);
                assert(sig * (0x200 * p) >= 0x1_0000_0000) by (nonlinear_arith)
                    requires
                        sig >= 0x80_0000,
                        p >= 1,
                ;
            }
            u32::MAX
        } else {
            let value: u64 = shifted(sig as u64, places - 112);
            if value < u32::MAX as u64 {
                value as u32
            } else {
                u32::MAX
            }
        }
    } else if 112 - places >= 25 {
        proof {
            let down = (112 - places) as nat;
            lemma_pow2_adds(25, (down - 25) as nat);
            lemma_pow2_pos((down - 25) as nat);
            let p = pow2((down - 25) as nat);
            assert(sig as nat / (0x200_0000 * p) == 0) by (nonlinear_arith)
                requires
                    sig <= 0x100_0000,
                    p >= 1,
            ;
        }
        0
    } else {
        let unit: u64 = power_of_two(112 - places);
        let value: u64 = sig as u64 / unit;
        assert(value <= sig) by (nonlinear_arith)
            requires
                value == sig as u64 / unit,
                unit >= 1,
                sig <= 0x100_0000,
        ;
        value as u32
    }
}

/// Two to the `k`.
fn power_of_two(k: u32) -> (r: u64)
    requires
        k <= 24,
    ensures
        r == pow2(k as nat),
        1 <= r <= 0x100_0000,
    decreases k,
{
    proof {
        vstd::arithmetic::power2::lemma2_to64();
    }
    if k <= 8 {
        shifted(1, k)
    } else {
        proof {
            lemma_pow2_unfold(k as nat);
            lemma_pow2_adds(k as nat, (24 - k) as nat);
            lemma_pow2_pos((24 - k) as nat);
            let rest = pow2((24 - k) as nat);
            let p = pow2(k as nat);
            assert(p <= 0x100_0000) by (nonlinear_arith)
                requires
                    p * rest == 0x100_0000,
                    rest >= 1,
            ;
        }
        2 * power_of_two(k - 1)
    }
}

} // verus!
