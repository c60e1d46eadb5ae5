//! How many frames a jitter sequence takes to repeat.

use crate::binary32::{
    eight_ratio_squared_of, exponent, in_binade, nearest_even, significand, whole,
};
use vstd::arithmetic::mul::lemma_mul_upper_bound;
use vstd::arithmetic::power2::{lemma_pow2_adds, lemma_pow2_pos, lemma_pow2_unfold, pow2};
use vstd::prelude::*;

verus! {

/// The jitter repeats after eight frames for each rendered pixel's share of the output, that is after
/// eight times the square of the ratio of the widths, without the fraction and but for a relative
/// error of at most one in two million that binary32 rounding makes. Numbers beyond 32 bits are cut
/// to the largest.
pub proof fn phases_are_eight_times_the_squared_ratio(upscaled: u32, rendered: u32, phases: u32)
    requires
        call_ensures(eight_ratio_squared_of, (upscaled, rendered), phases),
    ensures
        upscaled == 0 ==> phases == 0,
        upscaled > 0 && rendered == 0 ==> phases == u32::MAX,
        rendered > 0 ==> 0x20_0000 * (phases * (rendered * rendered)) <= 0x20_0001 * (8 * (upscaled
            * upscaled)),
        rendered > 0 && phases < u32::MAX ==> 0x20_0000 * ((phases + 1) * (rendered * rendered))
            > 0x1f_ffff * (8 * (upscaled * upscaled)),
{
    let u = upscaled as int;
    let r = rendered as int;
    if upscaled == 0 && rendered > 0 {
        assert(r * r > 0) by (nonlinear_arith)
            requires
                r > 0,
        ;
        assert(phases * (r * r) == 0) by (nonlinear_arith)
            requires
                phases == 0,
        ;
        assert((phases + 1) * (r * r) == r * r) by (nonlinear_arith)
            requires
                phases == 0,
        ;
        assert(u * u == 0);
    }
    if upscaled > 0 && rendered > 0 {
        let w = whole(upscaled as nat);
        let v = whole(rendered as nat);
        whole_is_near(upscaled as nat);
        whole_is_near(rendered as nat);
        vstd::arithmetic::power2::lemma2_to64();
        lemma_pow2_adds(32, 24);
        let big = pow2(56);
        let n = w * big;
        assert(n >= 0x80_0000 * v) by (nonlinear_arith)
            requires
                n == w * big,
                w >= 1,
                big == 0x100_0000_0000_0000,
                v <= 0x2_0000_0000,
        ;
        rounding_is_near(n, v);
        let m = significand(n, v);
        let k = exponent(n, v);
        let product = 8 * m * m;
        assert(product >= 0x80_0000) by (nonlinear_arith)
            requires
                product == 8 * m * m,
                m >= 0x80_0000,
        ;
        rounding_is_near(product, 1);
        let s = significand(product, 1);
        let e = exponent(product, 1);
        let q = pow2(k);
        let t = pow2(e);
        lemma_pow2_adds(k, k);
        lemma_pow2_adds(e, 2 * k);
        lemma_pow2_adds(56, 56);
        lemma_pow2_pos(k);
        lemma_pow2_pos(112);
        let total = s * pow2(e + 2 * k);
        let scaled = total / pow2(112);
        let b = s * t;
        assert(total == (b * q) * q) by (nonlinear_arith)
            requires
                total == s * (t * (q * q)),
                b == s * t,
        ;
        vstd::arithmetic::div_mod::lemma_fundamental_div_mod(total as int, pow2(112) as int);
        assert(scaled * (big * big) <= total < (scaled + 1) * (big * big)) by (nonlinear_arith)
            requires
                total == (big * big) * scaled + total as int % (big * big) as int,
                0 <= total as int % (big * big) as int,
                (total as int % (big * big) as int) < big * big,
        ;
        let x = (m * q) as int;
        assert(m * (v * q) == x * v) by (nonlinear_arith)
            requires
                x == m * q,
        ;
        assert(s * (1 * t) == b);
        assert(phases <= scaled);
        assert(phases * (big * big) <= (b * q) * q) by (nonlinear_arith)
            requires
                phases <= scaled,
                scaled * (big * big) <= (b * q) * q,
        ;
        bounded_above(
            m as int,
            q as int,
            v as int,
            w as int,
            big as int,
            b as int,
            u,
            r,
            phases as int,
        );
        if phases < u32::MAX {
            bounded_below(
                m as int,
                q as int,
                v as int,
                w as int,
                big as int,
                b as int,
                u,
                r,
                phases + 1,
            );
        }
    }
}

/// Where the output is a whole number of times as wide as what is rendered, the jitter repeats after
/// exactly eight times the square of that number.
pub proof fn whole_ratios_give_whole_phases(rendered: u32, ratio: u32, upscaled: u32, phases: u32)
    requires
        0 < rendered,
        0 < ratio < 0x1000,
        upscaled == ratio * rendered,
        upscaled < 0x100_0000,
        call_ensures(eight_ratio_squared_of, (upscaled, rendered), phases),
    ensures
        phases == 8 * (ratio * ratio),
{
    let c = ratio as nat;
    let d = rendered as nat;
    assert(upscaled > 0 && d <= upscaled) by (nonlinear_arith)
        requires
            upscaled == c * d,
            c > 0,
            d > 0,
    ;
    let big = pow2(56);
    let n = upscaled as nat * big;
    vstd::arithmetic::power2::lemma2_to64();
    lemma_pow2_adds(32, 24);
    assert(n == d * (c * big) && 0x80_0000 * d <= n) by (nonlinear_arith)
        requires
            n == (c * d) * big,
            big >= 0x80_0000,
            c > 0,
            d > 0,
    ;
    rounding_is_exact(n, d, c, 56);
    let m = significand(n, d);
    let k = exponent(n, d);
    let q = pow2(k);
    lemma_pow2_pos(k);
    assert(m * q == c * big) by (nonlinear_arith)
        requires
            m * (d * q) == d * (c * big),
            d > 0,
    ;
    let rest = pow2((56 - k) as nat);
    lemma_pow2_adds(k, (56 - k) as nat);
    assert(m == c * rest) by (nonlinear_arith)
        requires
            m * q == c * (q * rest),
            q > 0,
    ;
    let product = 8 * m * m;
    let j = (3 + ((56 - k) + (56 - k))) as nat;
    lemma_pow2_adds((56 - k) as nat, (56 - k) as nat);
    lemma_pow2_adds(3, ((56 - k) + (56 - k)) as nat);
    let cc = c * c;
    assert(product == cc * (8 * (rest * rest))) by (nonlinear_arith)
        requires
            product == 8 * m * m,
            m == c * rest,
            cc == c * c,
    ;
    assert(0 < cc < 0x100_0000) by (nonlinear_arith)
        requires
            cc == c * c,
            0 < c < 0x1000,
    ;
    assert(product >= 0x80_0000) by (nonlinear_arith)
        requires
            product == 8 * m * m,
            m >= 0x80_0000,
    ;
    rounding_is_exact(product, 1, cc, j);
    let s = significand(product, 1);
    let e = exponent(product, 1);
    let t = pow2(e);
    assert(s * t == product);
    lemma_pow2_adds(k, k);
    lemma_pow2_adds(e, 2 * k);
    lemma_pow2_adds(56, 56);
    lemma_pow2_pos(112);
    let total = s * pow2(e + 2 * k);
    assert(total == (8 * cc) * (big * big)) by (nonlinear_arith)
        requires
            total == s * (t * (q * q)),
            s * t == 8 * m * m,
            m * q == c * big,
            cc == c * c,
    {
        assert(s * (t * (q * q)) == (s * t) * (q * q));
        assert((8 * m * m) * (q * q) == 8 * ((m * q) * (m * q)));
        assert((c * big) * (c * big) == cc * (big * big));
    }
    vstd::arithmetic::div_mod::lemma_div_by_multiple((8 * cc) as int, pow2(112) as int);
}

/// A quotient whose significand has no more than twenty-four bits is not changed by rounding.
proof fn rounding_is_exact(n: nat, d: nat, c: nat, j: nat)
    requires
        d > 0,
        0 < c < 0x100_0000,
        n == d * (c * pow2(j)),
        0x80_0000 * d <= n,
    ensures
        significand(n, d) * (d * pow2(exponent(n, d))) == n,
        significand(n, d) >= 0x80_0000,
        exponent(n, d) <= j,
{
    rounding_is_near(n, d);
    vstd::arithmetic::power2::lemma2_to64();
    a_binade_is_found(n, d, 0);
    let k = exponent(n, d);
    let q = pow2(k);
    let f = pow2(j);
    lemma_pow2_pos(k);
    lemma_pow2_pos(j);
    assert(0x80_0000 * q <= c * f) by (nonlinear_arith)
        requires
            0x80_0000 * (d * q) <= d * (c * f),
            d > 0,
    ;
    if k > j {
        lemma_pow2_adds((j + 1) as nat, (k - j - 1) as nat);
        lemma_pow2_unfold((j + 1) as nat);
        lemma_pow2_pos((k - j - 1) as nat);
        let more = pow2((k - j - 1) as nat);
        assert(0x80_0000 * ((2 * f) * more) > c * f) by (nonlinear_arith)
            requires
                c < 0x100_0000,
                f > 0,
                more >= 1,
        ;
    }
    let rest = pow2((j - k) as nat);
    lemma_pow2_adds(k, (j - k) as nat);
    let unit = d * q;
    assert(n == (c * rest) * unit && unit > 0) by (nonlinear_arith)
        requires
            n == d * (c * (q * rest)),
            unit == d * q,
            d > 0,
            q > 0,
    ;
    vstd::arithmetic::div_mod::lemma_fundamental_div_mod_converse(
        n as int,
        unit as int,
        (c * rest) as int,
        0,
    );
}

/// Some power of two is the unit of every quotient that is large enough.
proof fn a_binade_is_found(n: nat, d: nat, from: nat)
    requires
        d > 0,
        0x80_0000 * (d * pow2(from)) <= n,
    ensures
        in_binade(n, d, exponent(n, d)),
    decreases n - d * pow2(from),
{
    if n < 0x100_0000 * (d * pow2(from)) {
        assert(in_binade(n, d, from));
    } else {
        lemma_pow2_unfold(from + 1);
        lemma_pow2_pos(from);
        let p = pow2(from);
        assert(d * (2 * p) == 2 * (d * p) && d * p > 0) by (nonlinear_arith)
            requires
                d > 0,
                p > 0,
        ;
        a_binade_is_found(n, d, from + 1);
    }
}

/// A rounded quotient is the exact one but for one part in two to the twenty-fourth.
proof fn rounding_is_near(n: nat, d: nat)
    requires
        d > 0,
        0x80_0000 * d <= n,
    ensures
        ({
            let m = significand(n, d);
            let unit = d * pow2(exponent(n, d));
            &&& m >= 0x80_0000
            &&& 0x100_0000 * (m * unit) <= 0x100_0001 * n
            &&& 0x100_0000 * (m * unit) >= 0xff_ffff * n
        }),
{
    vstd::arithmetic::power2::lemma2_to64();
    a_binade_is_found(n, d, 0);
    let unit = d * pow2(exponent(n, d));
    lemma_pow2_pos(exponent(n, d));
    assert(unit > 0) by (nonlinear_arith)
        requires
            unit == d * pow2(exponent(n, d)),
            d > 0,
            pow2(exponent(n, d)) > 0,
    ;
    let quotient = n / unit;
    let remainder = n % unit;
    let m = nearest_even(n, unit);
    vstd::arithmetic::div_mod::lemma_fundamental_div_mod(n as int, unit as int);
    assert(2 * (m * unit) <= 2 * n + unit && 2 * (m * unit) >= 2 * n - unit) by (nonlinear_arith)
        requires
            n == unit * quotient + remainder,
            0 <= remainder < unit,
            m == quotient && 2 * remainder <= unit || m == quotient + 1 && 2 * remainder >= unit,
    ;
    assert(quotient >= 0x80_0000) by (nonlinear_arith)
        requires
            n == unit * quotient + remainder,
            0 <= remainder < unit,
            0x80_0000 * unit <= n,
            unit > 0,
    ;
}

/// A whole number converted to binary32 is that number but for one part in two to the twenty-fourth.
proof fn whole_is_near(n: nat)
    requires
        0 < n <= u32::MAX,
    ensures
        0x100_0000 * whole(n) <= 0x100_0001 * n,
        0x100_0000 * whole(n) >= 0xff_ffff * n,
        0 < whole(n) <= 0x2_0000_0000,
{
    if n >= 0x100_0000 {
        rounding_is_near(n, 1);
        assert(1 * pow2(exponent(n, 1)) == pow2(exponent(n, 1)));
    }
}

/// From the error of each operation, that of the whole, upwards: the product `p * r * r` exceeds
/// `8 * u * u` by at most one part in two to the twenty-first.
proof fn bounded_above(
    m: int,
    q: int,
    v: int,
    w: int,
    big: int,
    b: int,
    u: int,
    r: int,
    p: int,
)
    requires
        0 < m && 0 < q && 0 < v && 0 < w && 0 < big && 0 <= b && 0 < u && 0 < r && 0 <= p,
        0x100_0000 * ((m * q) * v) <= 0x100_0001 * (w * big),
        0x100_0000 * b <= 0x100_0001 * (8 * m * m),
        0x100_0000 * w <= 0x100_0001 * u,
        0x100_0000 * v >= 0xff_ffff * r,
        p * (big * big) <= (b * q) * q,
    ensures
        0x20_0000 * (p * (r * r)) <= 0x20_0001 * (8 * (u * u)),
{
    let x = m * q;
    // Twice the square of the quotient and the rounding of the product.
    assert(0x100_0000 * (p * (big * big)) <= 0x800_0008 * (x * x)) by (nonlinear_arith)
        requires
            p * (big * big) <= (b * q) * q,
            0x100_0000 * b <= 0x100_0001 * (8 * m * m),
            x == m * q,
            q > 0,
    {
        assert((0x100_0000 * b) * (q * q) <= (0x100_0001 * (8 * m * m)) * (q * q));
        assert((m * m) * (q * q) == x * x);
    }
    let y = x * v;
    let z = w * big;
    assert(x > 0 && y > 0 && z > 0) by (nonlinear_arith)
        requires
            x == m * q,
            m > 0,
            q > 0,
            y == x * v,
            v > 0,
            z == w * big,
            w > 0,
            big > 0,
    ;
    squares_keep_order(0x100_0000 * y, 0x100_0001 * z);
    assert(0x1_0000_0000_0000 * (y * y) <= 0x1_0000_0200_0001 * (z * z)) by (nonlinear_arith)
        requires
            (0x100_0000 * y) * (0x100_0000 * y) <= (0x100_0001 * z) * (0x100_0001 * z),
    ;
    // p * v * v against w * w.
    let pv = p * (v * v);
    let ww = w * w;
    assert(0x100_0000 * (pv * (big * big)) <= 0x800_0008 * (y * y)) by (nonlinear_arith)
        requires
            0x100_0000 * (p * (big * big)) <= 0x800_0008 * (x * x),
            pv == p * (v * v),
            y == x * v,
            v > 0,
    {
        assert((0x100_0000 * (p * (big * big))) * (v * v) <= (0x800_0008 * (x * x)) * (v * v));
        assert((x * x) * (v * v) == y * y);
        assert((p * (big * big)) * (v * v) == pv * (big * big));
    }
    let bb = big * big;
    assert(z * z == ww * bb) by (nonlinear_arith)
        requires
            z == w * big,
            ww == w * w,
            bb == big * big,
    ;
    assert(bb > 0) by (nonlinear_arith)
        requires
            bb == big * big,
            big > 0,
    ;
    assert(0x1_0000_0000_0000 * (0x100_0000 * (pv * bb)) <= 0x800_0008 * (0x1_0000_0200_0001 * (ww
        * bb)));
    assert(0x1_0000_0000_0000 * (0x100_0000 * pv) <= 0x800_0008 * (0x1_0000_0200_0001 * ww))
        by (nonlinear_arith)
        requires
            0x1_0000_0000_0000 * (0x100_0000 * (pv * bb)) <= 0x800_0008 * (0x1_0000_0200_0001 * (ww
                * bb)),
            bb > 0,
    ;
    // The conversions of the two widths.
    squares_keep_order(0x100_0000 * w, 0x100_0001 * u);
    squares_keep_order(0xff_ffff * r, 0x100_0000 * v);
    let uu = u * u;
    let rr = r * r;
    let vv = v * v;
    assert(0x1_0000_0000_0000 * ww <= 0x1_0000_0200_0001 * uu) by (nonlinear_arith)
        requires
            (0x100_0000 * w) * (0x100_0000 * w) <= (0x100_0001 * u) * (0x100_0001 * u),
            ww == w * w,
            uu == u * u,
    ;
    assert(0xffff_fe00_0001 * rr <= 0x1_0000_0000_0000 * vv) by (nonlinear_arith)
        requires
            (0xff_ffff * r) * (0xff_ffff * r) <= (0x100_0000 * v) * (0x100_0000 * v),
            rr == r * r,
            vv == v * v,
    ;
    let pr = p * rr;
    assert(0xffff_fe00_0001 * pr <= 0x1_0000_0000_0000 * pv) by (nonlinear_arith)
        requires
            0xffff_fe00_0001 * rr <= 0x1_0000_0000_0000 * vv,
            pr == p * rr,
            pv == p * vv,
            p >= 0,
    ;
    assert(uu > 0) by (nonlinear_arith)
        requires
            uu == u * u,
            u > 0,
    ;
}

/// From the error of each operation, that of the whole, downwards: `p * r * r` exceeds `8 * u * u`
/// less one part in two to the twenty-first.
proof fn bounded_below(
    m: int,
    q: int,
    v: int,
    w: int,
    big: int,
    b: int,
    u: int,
    r: int,
    p: int,
)
    requires
        0 < m && 0 < q && 0 < v && 0 < w && 0 < big && 0 <= b && 0 < u && 0 < r && 0 < p,
        0x100_0000 * ((m * q) * v) >= 0xff_ffff * (w * big),
        0x100_0000 * b >= 0xff_ffff * (8 * m * m),
        0x100_0000 * w >= 0xff_ffff * u,
        0x100_0000 * v <= 0x100_0001 * r,
        p * (big * big) > (b * q) * q,
    ensures
        0x20_0000 * (p * (r * r)) > 0x1f_ffff * (8 * (u * u)),
{
    let x = m * q;
    assert(0x100_0000 * (p * (big * big)) > 0x7ff_fff8 * (x * x)) by (nonlinear_arith)
        requires
            p * (big * big) > (b * q) * q,
            0x100_0000 * b >= 0xff_ffff * (8 * m * m),
            x == m * q,
            q > 0,
    {
        assert((0x100_0000 * b) * (q * q) >= (0xff_ffff * (8 * m * m)) * (q * q));
        assert((m * m) * (q * q) == x * x);
    }
    let y = x * v;
    let z = w * big;
    assert(x > 0 && y > 0 && z > 0) by (nonlinear_arith)
        requires
            x == m * q,
            m > 0,
            q > 0,
            y == x * v,
            v > 0,
            z == w * big,
            w > 0,
            big > 0,
    ;
    squares_keep_order(0xff_ffff * z, 0x100_0000 * y);
    assert(0x1_0000_0000_0000 * (y * y) >= 0xffff_fe00_0001 * (z * z)) by (nonlinear_arith)
        requires
            (0xff_ffff * z) * (0xff_ffff * z) <= (0x100_0000 * y) * (0x100_0000 * y),
    ;
    let pv = p * (v * v);
    let ww = w * w;
    assert(0x100_0000 * (pv * (big * big)) > 0x7ff_fff8 * (y * y)) by (nonlinear_arith)
        requires
            0x100_0000 * (p * (big * big)) > 0x7ff_fff8 * (x * x),
            pv == p * (v * v),
            y == x * v,
            v > 0,
    {
        assert(v * v > 0);
        assert((0x100_0000 * (p * (big * big))) * (v * v) > (0x7ff_fff8 * (x * x)) * (v * v));
        assert((x * x) * (v * v) == y * y);
        assert((p * (big * big)) * (v * v) == pv * (big * big));
    }
    let bb = big * big;
    assert(z * z == ww * bb) by (nonlinear_arith)
        requires
            z == w * big,
            ww == w * w,
            bb == big * big,
    ;
    assert(bb > 0) by (nonlinear_arith)
        requires
            bb == big * big,
            big > 0,
    ;
    assert(0x1_0000_0000_0000 * (0x100_0000 * (pv * bb)) > 0x7ff_fff8 * (0xffff_fe00_0001 * (ww
        * bb)));
    assert(0x1_0000_0000_0000 * (0x100_0000 * pv) > 0x7ff_fff8 * (0xffff_fe00_0001 * ww))
        by (nonlinear_arith)
        requires
            0x1_0000_0000_0000 * (0x100_0000 * (pv * bb)) > 0x7ff_fff8 * (0xffff_fe00_0001 * (ww
                * bb)),
            bb > 0,
    ;
    squares_keep_order(0xff_ffff * u, 0x100_0000 * w);
    squares_keep_order(0x100_0000 * v, 0x100_0001 * r);
    let uu = u * u;
    let rr = r * r;
    let vv = v * v;
    assert(0x1_0000_0000_0000 * ww >= 0xffff_fe00_0001 * uu) by (nonlinear_arith)
        requires
            (0xff_ffff * u) * (0xff_ffff * u) <= (0x100_0000 * w) * (0x100_0000 * w),
            ww == w * w,
            uu == u * u,
    ;
    assert(0x1_0000_0200_0001 * rr >= 0x1_0000_0000_0000 * vv) by (nonlinear_arith)
        requires
            (0x100_0000 * v) * (0x100_0000 * v) <= (0x100_0001 * r) * (0x100_0001 * r),
            rr == r * r,
            vv == v * v,
    ;
    let pr = p * rr;
    assert(0x1_0000_0200_0001 * pr >= 0x1_0000_0000_0000 * pv) by (nonlinear_arith)
        requires
            0x1_0000_0200_0001 * rr >= 0x1_0000_0000_0000 * vv,
            pr == p * rr,
            pv == p * vv,
            p >= 0,
    ;
    assert(uu > 0) by (nonlinear_arith)
        requires
            uu == u * u,
            u > 0,
    ;
}

proof fn squares_keep_order(a: int, b: int)
    requires
        0 <= a <= b,
    ensures
        a * a <= b * b,
{
    lemma_mul_upper_bound(a, b, a, b);
}

} // verus!
