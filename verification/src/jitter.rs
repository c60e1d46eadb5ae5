//! Subpixel jitter shared by the Super Resolution and Ray Reconstruction upscalers.
//!
//! Both suggest the same camera jitter: a low-discrepancy subpixel offset for each frame, taken from
//! the Halton sequence and recentred on the pixel. The values are exact fractions.

use crate::binary32::eight_ratio_squared_of;
use vstd::prelude::*;

verus! {

/// A number in `[0, 1)`.
#[derive(Clone, Copy, Debug, PartialEq, Eq, Structural)]
pub struct Fraction {
    /// What is divided.
    pub numerator: u64,
    /// What it is divided by.
    pub denominator: u64,
}

/// The denominator of [`radical_numerator`]: one factor `base` for every digit of `index`.
pub open spec fn radical_denominator(index: nat, base: nat) -> nat
    decreases index,
{
    if index == 0 || base < 2 {
        1
    } else {
        proof {
            assert(index / base < index) by (nonlinear_arith)
                requires
                    base >= 2,
                    index > 0,
            ;
        }
        base * radical_denominator(index / base, base)
    }
}

/// The numerator of the radical inverse of `index`: its digits in `base`, mirrored at the point.
/// The last digit is worth `1 / base` and the others follow scaled down by `base`, that is,
/// `inverse(index) == (index % base + inverse(index / base)) / base`.
pub open spec fn radical_numerator(index: nat, base: nat) -> nat
    decreases index,
{
    if index == 0 || base < 2 {
        0
    } else {
        proof {
            assert(index / base < index) by (nonlinear_arith)
                requires
                    base >= 2,
                    index > 0,
            ;
        }
        (index % base) * radical_denominator(index / base, base) + radical_numerator(
            index / base,
            base,
        )
    }
}

/// A radical inverse lies in `[0, 1)`, and its denominator is at most `base` times the index.
pub proof fn radical_inverse_is_below_one(index: nat, base: nat)
    requires
        base >= 2,
    ensures
        radical_numerator(index, base) < radical_denominator(index, base),
        index > 0 ==> radical_denominator(index, base) <= index * base,
    decreases index,
{
    if index > 0 {
        let rest = index / base;
        let digit = index % base;
        assert(rest < index && rest * base <= index && digit < base) by (nonlinear_arith)
            requires
                rest == index / base,
                digit == index % base,
                base >= 2,
                index > 0,
        ;
        radical_inverse_is_below_one(rest, base);
        let d = radical_denominator(rest, base);
        let n = radical_numerator(rest, base);
        assert(digit * d + n < base * d) by (nonlinear_arith)
            requires
                digit < base,
                n < d,
                digit >= 0,
        ;
        assert(d <= index);
        assert(base * d <= index * base) by (nonlinear_arith)
            requires
                d <= index,
                base >= 0,
        ;
    }
}

/// Two indices never share a radical inverse: within a repetition no two frames are jittered alike.
pub proof fn radical_inverses_are_distinct(i: nat, j: nat, base: nat)
    requires
        base >= 2,
        radical_numerator(i, base) * radical_denominator(j, base) == radical_numerator(j, base)
            * radical_denominator(i, base),
    ensures
        i == j,
    decreases i + j,
{
    radical_inverse_is_below_one(i, base);
    radical_inverse_is_below_one(j, base);
    if i == 0 || j == 0 {
        let k = if i == 0 { j } else { i };
        radical_inverse_is_positive(k, base);
        if k > 0 {
            let a = radical_numerator(k, base);
            assert(a * 1 != 0 * radical_denominator(k, base)) by (nonlinear_arith)
                requires
                    a > 0,
            ;
        }
    } else {
        let (ri, di) = (i / base, i % base);
        let (rj, dj) = (j / base, j % base);
        radical_inverse_is_below_one(ri, base);
        radical_inverse_is_below_one(rj, base);
        let (ni, ei) = (radical_numerator(ri, base), radical_denominator(ri, base));
        let (nj, ej) = (radical_numerator(rj, base), radical_denominator(rj, base));
        assert((di * ei + ni) * (base * ej) == (dj * ej + nj) * (base * ei));
        assert((di * ei + ni) * ej == (dj * ej + nj) * ei) by (nonlinear_arith)
            requires
                (di * ei + ni) * (base * ej) == (dj * ej + nj) * (base * ei),
                base >= 2,
        ;
        assert(di == dj && ni * ej == nj * ei) by (nonlinear_arith)
            requires
                (di * ei + ni) * ej == (dj * ej + nj) * ei,
                0 <= ni < ei,
                0 <= nj < ej,
        ;
        assert(ri < i && rj < j) by (nonlinear_arith)
            requires
                ri == i / base,
                rj == j / base,
                base >= 2,
                i > 0,
                j > 0,
        ;
        radical_inverses_are_distinct(ri, rj, base);
        vstd::arithmetic::div_mod::lemma_fundamental_div_mod(i as int, base as int);
        vstd::arithmetic::div_mod::lemma_fundamental_div_mod(j as int, base as int);
    }
}

/// Only index zero has the radical inverse zero.
proof fn radical_inverse_is_positive(index: nat, base: nat)
    requires
        base >= 2,
    ensures
        index > 0 ==> radical_numerator(index, base) > 0,
    decreases index,
{
    if index > 0 {
        let rest = index / base;
        let digit = index % base;
        vstd::arithmetic::div_mod::lemma_fundamental_div_mod(index as int, base as int);
        assert(rest < index) by (nonlinear_arith)
            requires
                rest == index / base,
                base >= 2,
                index > 0,
        ;
        radical_inverse_is_positive(rest, base);
        radical_inverse_is_below_one(rest, base);
        if rest == 0 {
            assert(base * rest == 0) by (nonlinear_arith)
                requires
                    rest == 0,
            ;
            assert(digit * 1 > 0);
        } else {
            let d = radical_denominator(rest, base);
            assert(digit * d >= 0) by (nonlinear_arith)
                requires
                    digit >= 0,
                    d >= 0,
            ;
        }
    }
}

/// The `index`-th value of the Halton sequence in the given `base`, by the radical inverse.
pub fn halton_sequence(index: u32, base: u32) -> (r: Fraction)
    requires
        index == 0 || base >= 2,
    ensures
        r.numerator == radical_numerator(index as nat, base as nat),
        r.denominator == radical_denominator(index as nat, base as nat),
        r.numerator < r.denominator,
        r.denominator <= 1 || r.denominator <= index * base,
    decreases index,
{
    if index == 0 {
        return Fraction { numerator: 0, denominator: 1 };
    }
    proof {
        radical_inverse_is_below_one(index as nat, base as nat);
    }
    let rest: u32 = index / base;
    let digit: u32 = index % base;
    proof {
        assert(rest < index) by (nonlinear_arith)
            requires
                rest == index / base,
                base >= 2,
                index > 0,
        ;
        assert(index * base <= 0xffff_ffff * 0xffff_ffff) by (nonlinear_arith)
            requires
                0 <= index <= 0xffff_ffff,
                0 <= base <= 0xffff_ffff,
        ;
    }
    let tail = halton_sequence(rest, base);
    proof {
        let d = tail.denominator;
        let n = tail.numerator;
        assert(digit * d >= 0 && digit * d + n < base * d) by (nonlinear_arith)
            requires
                digit < base,
                n < d,
                digit >= 0,
                d >= 0,
        ;
    }
    Fraction {
        numerator: digit as u64 * tail.denominator + tail.numerator,
        denominator: base as u64 * tail.denominator,
    }
}

/// A number in `[-1/2, 1/2)`: an offset from the centre of a pixel.
#[derive(Clone, Copy, Debug, PartialEq, Eq, Structural)]
pub struct Offset {
    /// What is divided.
    pub numerator: i64,
    /// What it is divided by.
    pub denominator: u64,
}

/// A subpixel camera offset.
#[derive(Clone, Copy, Debug, PartialEq, Eq, Structural)]
pub struct Jitter {
    /// The horizontal offset, in pixels.
    pub x: Offset,
    /// The vertical offset, in pixels.
    pub y: Offset,
}

impl Offset {
    /// Whether this is the radical inverse of `index` in `base`, less one half.
    pub open spec fn is_recentred(self, index: nat, base: nat) -> bool {
        &&& self.numerator == 2 * radical_numerator(index, base) - radical_denominator(
            index,
            base,
        )
        &&& self.denominator == 2 * radical_denominator(index, base)
    }

    /// Whether the offset lies in `[-1/2, 1/2)`, so that it stays within its pixel.
    pub open spec fn within_pixel(self) -> bool {
        &&& self.denominator > 0
        &&& -(self.denominator as int) <= 2 * self.numerator < self.denominator
    }
}

fn recentred(value: Fraction) -> (r: Offset)
    requires
        value.numerator < value.denominator,
        value.denominator <= 0x1000_0000_0000_0000,
    ensures
        r.numerator == 2 * value.numerator - value.denominator,
        r.denominator == 2 * value.denominator,
        r.within_pixel(),
{
    Offset {
        numerator: 2 * value.numerator as i64 - value.denominator as i64,
        denominator: 2 * value.denominator,
    }
}

/// How many frames the suggested jitter takes to repeat: eight for each rendered pixel's share of
/// the output, computed in binary32, and at least one.
pub open spec fn phase_count(upscaled_width: u32, render_width: u32) -> nat {
    let phases = crate::binary32::eight_ratio_squared(upscaled_width as nat, render_width as nat);
    if phases == 0 {
        1
    } else {
        phases
    }
}

impl Jitter {
    /// Whether this is the jitter of a frame rendered at `render_width` for an output of
    /// `upscaled_width`: the Halton values in bases two and three at the frame's place in the
    /// repetition, recentred. Each offset stays within its pixel.
    pub open spec fn is_suggested(
        self,
        frame_number: u32,
        upscaled_width: u32,
        render_width: u32,
    ) -> bool {
        let index = frame_number as nat % phase_count(upscaled_width, render_width);
        &&& self.x.is_recentred(index, 2)
        &&& self.y.is_recentred(index, 3)
        &&& self.x.within_pixel()
        &&& self.y.within_pixel()
    }
}

/// The suggested jitter of a frame.
pub fn suggested_jitter(frame_number: u32, upscaled_width: u32, render_width: u32) -> (r: Jitter)
    ensures
        r.is_suggested(frame_number, upscaled_width, render_width),
{
    let phases: u32 = eight_ratio_squared_of(upscaled_width, render_width);
    let period: u32 = if phases == 0 {
        1
    } else {
        phases
    };
    let index: u32 = frame_number % period;
    Jitter {
        x: recentred(halton_sequence(index, 2)),
        y: recentred(halton_sequence(index, 3)),
    }
}

/// Two frames are jittered alike exactly when they stand at the same place in the repetition.
pub proof fn jitter_repeats_and_never_sooner(
    a: Jitter,
    b: Jitter,
    first: u32,
    second: u32,
    upscaled_width: u32,
    render_width: u32,
)
    requires
        a.is_suggested(first, upscaled_width, render_width),
        b.is_suggested(second, upscaled_width, render_width),
    ensures
        a == b <==> first as nat % phase_count(upscaled_width, render_width) == second as nat
            % phase_count(upscaled_width, render_width),
{
    let i = first as nat % phase_count(upscaled_width, render_width);
    let j = second as nat % phase_count(upscaled_width, render_width);
    if a == b {
        assert(radical_denominator(i, 2) == radical_denominator(j, 2));
        assert(radical_numerator(i, 2) == radical_numerator(j, 2));
        radical_inverses_are_distinct(i, j, 2);
    }
}

} // verus!
