//! The size of a screenshot after it has been scaled down.
//!
//! A screenshot with a side above [`MAX_DIMENSION`] is scaled by the factor
//! `MAX_DIMENSION / longest`, computed in double precision, that is, in binary floating point
//! with 53 significant bits, and each side is multiplied by that factor in the same arithmetic
//! and truncated. This module computes those values with integers alone.

use vstd::arithmetic::power2::{lemma_pow2_adds, lemma_pow2_pos, lemma_pow2_unfold, pow2};
use vstd::prelude::*;

verus! {

/// The longest side that a screenshot may have before it is scaled down.
pub const MAX_DIMENSION: u32 = 1280;

/// The integer nearest to `n / d`; of two that are equally near, the even one.
pub open spec fn nearest_even(n: int, d: int) -> int {
    if 2 * (n % d) < d || (2 * (n % d) == d && (n / d) % 2 == 0) {
        n / d
    } else {
        n / d + 1
    }
}

/// The number of doublings that bring `n / d` up to a 53-bit significand, that is, to at
/// least `0x10_0000_0000_0000`, two to the power of 52.
pub open spec fn quotient_shift(n: int, d: int) -> nat
    decreases (if n < 0x10_0000_0000_0000 * d { 0x10_0000_0000_0000 * d - n } else { 0 }),
    when 0 < n
{
    if n >= 0x10_0000_0000_0000 * d {
        0
    } else {
        1 + quotient_shift(2 * n, d)
    }
}

/// The significand of the double nearest to `n / d`, which is this number divided by
/// `pow2(quotient_shift(n, d))`.
pub open spec fn quotient_significand(n: int, d: int) -> int {
    nearest_even(n * pow2(quotient_shift(n, d)), d)
}

/// The number of low bits that do not fit when `p` is written with 53 significant bits.
pub open spec fn excess_bits(p: nat) -> nat
    decreases p,
{
    if p < 0x20_0000_0000_0000 {
        0
    } else {
        1 + excess_bits(p / 2)
    }
}

/// The integer `p` rounded to 53 significant bits.
pub open spec fn round_to_double(p: nat) -> nat {
    (nearest_even(p as int, pow2(excess_bits(p)) as int) * pow2(excess_bits(p))) as nat
}

/// What one side becomes when the longest side is `longest`: the product of `side` and the
/// factor `MAX_DIMENSION / longest`, both rounded to a double, truncated to an integer.
pub open spec fn scaled_side(side: nat, longest: nat) -> nat {
    (round_to_double(
        (side * quotient_significand(MAX_DIMENSION as int, longest as int)) as nat,
    ) as int / pow2(quotient_shift(MAX_DIMENSION as int, longest as int)) as int) as nat
}

/// Whether a screenshot of this size is scaled down.
pub open spec fn exceeds_limit(width: u32, height: u32) -> bool {
    width > MAX_DIMENSION || height > MAX_DIMENSION
}

/// The longer of the two sides.
pub open spec fn longest_side(width: u32, height: u32) -> u32 {
    if width >= height {
        width
    } else {
        height
    }
}

/// The nearest integer is off by at most one half.
proof fn lemma_nearest_even_bounds(n: int, d: int)
    requires
        0 <= n,
        0 < d,
    ensures
        0 <= nearest_even(n, d),
        2 * n - d <= 2 * (nearest_even(n, d) * d) <= 2 * n + d,
{
    vstd::arithmetic::div_mod::lemma_fundamental_div_mod(n, d);
    vstd::arithmetic::div_mod::lemma_div_pos_is_pos(n, d);
    let q = n / d;
    assert(q * d == d * q) by (nonlinear_arith);
    assert((q + 1) * d == q * d + d) by (nonlinear_arith);
}

fn nearest_even_exec(n: u128, d: u128) -> (r: u128)
    requires
        0 < d < 0x8000_0000_0000_0000_0000_0000_0000_0000,
        n < 0x8000_0000_0000_0000_0000_0000_0000_0000,
    ensures
        r == nearest_even(n as int, d as int),
{
    let q: u128 = n / d;
    let rest: u128 = n % d;
    proof {
        assert(n / d <= n) by (nonlinear_arith)
            requires
                0 < d,
                0 <= n,
        ;
    }
    if 2 * rest < d || (2 * rest == d && q % 2 == 0) {
        q
    } else {
        q + 1
    }
}

/// The shift brings the quotient into the range of a 53-bit significand.
proof fn lemma_quotient_shift_range(n: int, d: int)
    requires
        0 < n < 0x20_0000_0000_0000 * d,
    ensures
        0x10_0000_0000_0000 * d <= n * pow2(quotient_shift(n, d)) < 0x20_0000_0000_0000 * d,
    decreases (if n < 0x10_0000_0000_0000 * d { 0x10_0000_0000_0000 * d - n } else { 0 }),
{
    if n >= 0x10_0000_0000_0000 * d {
        vstd::arithmetic::power2::lemma2_to64();
        assert(n * pow2(0) == n) by (nonlinear_arith)
            requires
                pow2(0) == 1,
        ;
    } else {
        lemma_quotient_shift_range(2 * n, d);
        let k = quotient_shift(2 * n, d);
        lemma_pow2_unfold(k + 1);
        assert(n * (2 * pow2(k)) == (2 * n) * pow2(k)) by (nonlinear_arith);
    }
}

/// Halving as often as there are excess bits leaves exactly 53 bits.
proof fn lemma_excess_bits_range(p: nat)
    ensures
        excess_bits(p) == 0 || 0x10_0000_0000_0000 * pow2(excess_bits(p)) <= p,
    decreases p,
{
    if p >= 0x20_0000_0000_0000 {
        let h = p / 2;
        lemma_excess_bits_range(h);
        let t = excess_bits(h);
        lemma_pow2_unfold(t + 1);
        assert(0x10_0000_0000_0000 * (2 * pow2(t)) == 2 * (0x10_0000_0000_0000 * pow2(t)))
            by (nonlinear_arith);
        assert(pow2(0) == 1) by {
            vstd::arithmetic::power2::lemma2_to64();
        }
    }
}

/// Rounding to 53 significant bits moves an integer by at most one part in two to the power of 53.
proof fn lemma_round_to_double_bounds(p: nat)
    ensures
        0x20_0000_0000_0000 * (round_to_double(p) - p) <= p,
        0x20_0000_0000_0000 * (p - round_to_double(p)) <= p,
{
    let t = excess_bits(p);
    let unit = pow2(t) as int;
    lemma_pow2_pos(t);
    lemma_excess_bits_range(p);
    lemma_nearest_even_bounds(p as int, unit);
    let r = nearest_even(p as int, unit) * unit;
    assert(0 <= r) by (nonlinear_arith)
        requires
            r == nearest_even(p as int, unit) * unit,
            0 <= nearest_even(p as int, unit),
            0 < unit,
    ;
    if t == 0 {
        assert(pow2(0) == 1) by {
            vstd::arithmetic::power2::lemma2_to64();
        }
    }
}

/// The facts about one scaled side from which its bounds follow. With `x` the power of two
/// that the factor is divided by and `p` the exact product, `p` is close to
/// `MAX_DIMENSION * side * x / longest`, and the rounded product is close to `p`.
proof fn lemma_scaled_side_parts(side: nat, longest: nat) -> (parts: (int, int, int))
    requires
        MAX_DIMENSION < longest <= u32::MAX,
    ensures
        ({
            let (x, p, r) = parts;
            &&& x == pow2(quotient_shift(MAX_DIMENSION as int, longest as int))
            &&& p == side * quotient_significand(MAX_DIMENSION as int, longest as int)
            &&& r == round_to_double(p as nat)
            &&& scaled_side(side, longest) == r / x
            &&& 0 < x
            &&& 0 <= p
            &&& 0x10_0000_0000_0000 * longest <= 1280 * x < 0x20_0000_0000_0000 * longest
            &&& 2 * (p * longest) <= 2560 * (side * x) + side * longest
            &&& 2 * (p * longest) >= 2560 * (side * x) - side * longest
            &&& 0x20_0000_0000_0000 * (r - p) <= p
            &&& 0x20_0000_0000_0000 * (p - r) <= p
        }),
{
    let n = MAX_DIMENSION as int;
    let l = longest as int;
    let k = quotient_shift(n, l);
    let x = pow2(k) as int;
    let s = quotient_significand(n, l);
    let p = side * s;
    lemma_pow2_pos(k);
    lemma_quotient_shift_range(n, l);
    assert(0 <= n * x) by (nonlinear_arith)
        requires
            0 <= n,
            0 <= x,
    ;
    lemma_nearest_even_bounds(n * x, l);
    assert(n * x == 1280 * x) by (nonlinear_arith)
        requires
            n == 1280,
    ;
    assert(0 <= p) by (nonlinear_arith)
        requires
            p == side * s,
            0 <= s,
            0 <= side,
    ;
    assert(2 * (p * l) <= 2560 * (side * x) + side * l && 2 * (p * l) >= 2560 * (side * x) - side
        * l) by (nonlinear_arith)
        requires
            p == side * s,
            2560 * x - l <= 2 * (s * l) <= 2560 * x + l,
            0 <= side,
    ;
    lemma_round_to_double_bounds(p as nat);
    (x, p, round_to_double(p as nat) as int)
}

/// A side that is at most the longest one comes out at most `MAX_DIMENSION`.
pub proof fn scaled_side_within_limit(side: nat, longest: nat)
    requires
        side <= longest,
        MAX_DIMENSION < longest <= u32::MAX,
    ensures
        scaled_side(side, longest) <= MAX_DIMENSION,
{
    let (x, p, r) = lemma_scaled_side_parts(side, longest);
    let l = longest as int;
    assert(2 * p <= 2560 * x + l) by (nonlinear_arith)
        requires
            2 * (p * l) <= 2560 * (side * x) + side * l,
            side <= l,
            0 < l,
            0 < x,
            0 <= p,
    ;
    assert(r < 1281 * x);
    assert(r / x < 1281) by (nonlinear_arith)
        requires
            r < 1281 * x,
            0 < x,
    ;
}

/// The longest side itself comes out at `MAX_DIMENSION`, or one below it where the rounding of
/// the factor falls short.
pub proof fn longest_side_fills_limit(longest: nat)
    requires
        MAX_DIMENSION < longest <= u32::MAX,
    ensures
        MAX_DIMENSION - 1 <= scaled_side(longest, longest) <= MAX_DIMENSION,
{
    scaled_side_within_limit(longest, longest);
    let (x, p, r) = lemma_scaled_side_parts(longest, longest);
    let l = longest as int;
    assert(2 * p >= 2560 * x - l && 2 * p <= 2560 * x + l) by (nonlinear_arith)
        requires
            2 * (p * l) >= 2560 * (l * x) - l * l,
            2 * (p * l) <= 2560 * (l * x) + l * l,
            0 < l,
    ;
    assert(r >= 1279 * x);
    assert(r / x >= 1279) by (nonlinear_arith)
        requires
            r >= 1279 * x,
            0 < x,
    ;
}

/// Every side keeps its proportion to the longest one: `side * MAX_DIMENSION / longest` lies
/// between what the side becomes and one pixel more. The rounding is never enough to lift a side
/// to the next pixel.
pub proof fn scaled_side_keeps_proportion(side: nat, longest: nat)
    requires
        side <= u32::MAX,
        MAX_DIMENSION < longest <= u32::MAX,
    ensures
        scaled_side(side, longest) * longest <= MAX_DIMENSION * side,
        MAX_DIMENSION * side <= (scaled_side(side, longest) + 1) * longest,
{
    let (x, p, r) = lemma_scaled_side_parts(side, longest);
    let l = longest as int;
    let w = side as int;
    let n = 1280 * w;
    let c = r / x;
    assert(MAX_DIMENSION * side == n) by (nonlinear_arith)
        requires
            MAX_DIMENSION == 1280,
            n == 1280 * side,
    ;
    vstd::arithmetic::div_mod::lemma_fundamental_div_mod(r, x);
    assert(c * x <= r < c * x + x) by (nonlinear_arith)
        requires
            r == x * c + r % x,
            0 <= r % x < x,
    ;
    // The errors, multiplied by `longest`, are far below the power of two that they are divided by.
    assert(0x10_0000_0000_0000 * (w * l) <= 1280 * (0xffff_ffff * x)) by (nonlinear_arith)
        requires
            0x10_0000_0000_0000 * l <= 1280 * x,
            0 <= w <= 0xffff_ffff,
            0 < x,
    ;
    assert(w * x <= 0xffff_ffff * x) by (nonlinear_arith)
        requires
            w <= 0xffff_ffff,
            0 < x,
    ;
    assert(0x20_0000_0000_0000 * (r * l - p * l) <= p * l) by (nonlinear_arith)
        requires
            0x20_0000_0000_0000 * (r - p) <= p,
            0 < l,
    ;
    assert(0x20_0000_0000_0000 * (p * l - r * l) <= p * l) by (nonlinear_arith)
        requires
            0x20_0000_0000_0000 * (p - r) <= p,
            0 < l,
    ;
    assert(n * x == 1280 * (w * x)) by (nonlinear_arith)
        requires
            n == 1280 * w,
    ;
    assert(r * l < n * x + x);
    assert(r * l > n * x - x);
    assert(c * l <= n) by (nonlinear_arith)
        requires
            c * x <= r,
            r * l < n * x + x,
            0 < l,
            0 < x,
    {
        assert((c * l) * x <= r * l) by (nonlinear_arith)
            requires
                c * x <= r,
                0 < l,
        ;
        assert((c * l) * x < (n + 1) * x);
    }
    assert(n <= (c + 1) * l) by (nonlinear_arith)
        requires
            r < c * x + x,
            r * l > n * x - x,
            0 < l,
            0 < x,
    {
        assert(r * l <= ((c + 1) * l) * x) by (nonlinear_arith)
            requires
                r < c * x + x,
                0 < l,
        ;
        assert((n - 1) * x < ((c + 1) * l) * x);
    }
}

proof fn lemma_nearest_even_monotone(m: int, n: int, d: int)
    requires
        0 <= m <= n,
        0 < d,
    ensures
        nearest_even(m, d) <= nearest_even(n, d),
{
    vstd::arithmetic::div_mod::lemma_div_is_ordered(m, n, d);
    vstd::arithmetic::div_mod::lemma_fundamental_div_mod(m, d);
    vstd::arithmetic::div_mod::lemma_fundamental_div_mod(n, d);
}

proof fn lemma_nearest_even_exact(k: int, d: int)
    requires
        0 <= k,
        0 < d,
    ensures
        nearest_even(k * d, d) == k,
{
    vstd::arithmetic::div_mod::lemma_div_by_multiple(k, d);
    vstd::arithmetic::div_mod::lemma_mod_multiples_basic(k, d);
}

proof fn lemma_excess_bits_monotone(p: nat, q: nat)
    requires
        p <= q,
    ensures
        excess_bits(p) <= excess_bits(q),
        p < 0x20_0000_0000_0000 * pow2(excess_bits(p)),
    decreases p,
{
    if p < 0x20_0000_0000_0000 {
        vstd::arithmetic::power2::lemma2_to64();
    } else {
        lemma_excess_bits_monotone(p / 2, q / 2);
        lemma_pow2_unfold(excess_bits(p));
    }
}

proof fn lemma_round_to_double_monotone(p: nat, q: nat)
    requires
        p <= q,
    ensures
        round_to_double(p) <= round_to_double(q),
{
    let t = excess_bits(p);
    let u = excess_bits(q);
    let low = pow2(t) as int;
    let high = pow2(u) as int;
    lemma_pow2_pos(t);
    lemma_pow2_pos(u);
    lemma_excess_bits_monotone(p, q);
    lemma_nearest_even_bounds(p as int, low);
    lemma_nearest_even_bounds(q as int, high);
    let a = nearest_even(p as int, low);
    let b = nearest_even(q as int, high);
    if t == u {
        lemma_nearest_even_monotone(p as int, q as int, low);
        assert(0 <= a * low <= b * low) by (nonlinear_arith)
            requires
                0 <= a <= b,
                0 < low,
        ;
    } else {
        lemma_excess_bits_range(q);
        lemma_nearest_even_monotone(p as int, 0x20_0000_0000_0000 * low, low);
        lemma_nearest_even_exact(0x20_0000_0000_0000, low);
        lemma_nearest_even_monotone(0x10_0000_0000_0000 * high, q as int, high);
        lemma_nearest_even_exact(0x10_0000_0000_0000, high);
        lemma_pow2_adds(t, (u - t) as nat);
        lemma_pow2_unfold((u - t) as nat);
        lemma_pow2_pos((u - t - 1) as nat);
        let ratio = pow2((u - t - 1) as nat) as int;
        assert(2 * low <= high) by (nonlinear_arith)
            requires
                low * (2 * ratio) == high,
                ratio >= 1,
                low >= 1,
        ;
        assert(0 <= a * low <= b * high) by (nonlinear_arith)
            requires
                0 <= a <= 0x20_0000_0000_0000,
                b >= 0x10_0000_0000_0000,
                2 * low <= high,
                0 < low,
        ;
    }
}

proof fn lemma_nearest_even_tie(n: int, d: int)
    requires
        0 <= n,
        0 < d,
    ensures
        2 * (nearest_even(n, d) * d) == 2 * n + d || 2 * (nearest_even(n, d) * d) == 2 * n - d
            ==> nearest_even(n, d) % 2 == 0,
{
    vstd::arithmetic::div_mod::lemma_fundamental_div_mod(n, d);
    let q = n / d;
    assert(q * d == d * q) by (nonlinear_arith);
    assert((q + 1) * d == q * d + d) by (nonlinear_arith);
}

/// A side is scaled as double precision does it. The factor `MAX_DIMENSION / longest` is
/// `factor / pow2(shift)`, and the product of the side with it is
/// `product * pow2(excess) / pow2(shift)`, where `factor` and `product` have 53 bits, are off by
/// at most one half, and are even where they are off by exactly one half. The side becomes the
/// integer part of that product.
pub proof fn scaled_side_is_computed_in_doubles(side: nat, longest: nat) -> (parts: (
    nat,
    int,
    nat,
    int,
))
    requires
        side <= u32::MAX,
        1280 < longest <= u32::MAX,
    ensures
        ({
            let (shift, factor, excess, product) = parts;
            let exact = side * factor;
            let rounded = product * pow2(excess);
            &&& 0x10_0000_0000_0000 * longest <= 1280 * pow2(shift) < 0x20_0000_0000_0000 * longest
            &&& 2 * (1280 * pow2(shift)) - longest <= 2 * (factor * longest) <= 2 * (1280 * pow2(
                shift,
            )) + longest
            &&& 2 * (factor * longest) == 2 * (1280 * pow2(shift)) - longest ==> factor % 2 == 0
            &&& 2 * (factor * longest) == 2 * (1280 * pow2(shift)) + longest ==> factor % 2 == 0
            &&& excess == 0 || 0x10_0000_0000_0000 * pow2(excess) <= exact
            &&& exact < 0x20_0000_0000_0000 * pow2(excess)
            &&& 2 * exact - pow2(excess) <= 2 * rounded <= 2 * exact + pow2(excess)
            &&& 2 * rounded == 2 * exact - pow2(excess) ==> product % 2 == 0
            &&& 2 * rounded == 2 * exact + pow2(excess) ==> product % 2 == 0
            &&& scaled_side(side, longest) * pow2(shift) <= rounded
            &&& rounded < (scaled_side(side, longest) + 1) * pow2(shift)
        }),
{
    let (x, p, r) = lemma_scaled_side_parts(side, longest);
    let n = MAX_DIMENSION as int;
    let l = longest as int;
    let shift = quotient_shift(n, l);
    let factor = quotient_significand(n, l);
    let excess = excess_bits(p as nat);
    let product = nearest_even(p, pow2(excess) as int);
    lemma_quotient_shift_range(n, l);
    assert(n * pow2(shift) == 1280 * pow2(shift)) by (nonlinear_arith)
        requires
            n == 1280,
    ;
    lemma_nearest_even_bounds(n * pow2(shift), l);
    lemma_nearest_even_tie(n * pow2(shift), l);
    lemma_pow2_pos(excess);
    lemma_excess_bits_range(p as nat);
    lemma_excess_bits_monotone(p as nat, p as nat);
    lemma_nearest_even_bounds(p, pow2(excess) as int);
    lemma_nearest_even_tie(p, pow2(excess) as int);
    assert(0 <= product * pow2(excess)) by (nonlinear_arith)
        requires
            0 <= product,
            0 < pow2(excess),
    ;
    vstd::arithmetic::div_mod::lemma_fundamental_div_mod(r, x);
    let c = r / x;
    assert(c * x <= r < (c + 1) * x) by (nonlinear_arith)
        requires
            r == x * c + r % x,
            0 <= r % x < x,
    ;
    (shift, factor, excess, product)
}

/// A picture is scaled down exactly if one of its sides is above 1280 pixels, and the longest side
/// is one of its sides that the other does not exceed.
pub proof fn limit_is_for_both_sides(width: u32, height: u32)
    ensures
        exceeds_limit(width, height) == !(width <= 1280 && height <= 1280),
        longest_side(width, height) >= width,
        longest_side(width, height) >= height,
        longest_side(width, height) == width || longest_side(width, height) == height,
{
}

/// The picture keeps its orientation: a side that is not longer than another comes out not longer
/// than it.
pub proof fn scaled_side_keeps_orientation(side: nat, other: nat, longest: nat)
    requires
        side <= other <= longest,
        MAX_DIMENSION < longest <= u32::MAX,
    ensures
        scaled_side(side, longest) <= scaled_side(other, longest),
{
    let (x, p, r) = lemma_scaled_side_parts(side, longest);
    let (y, q, s) = lemma_scaled_side_parts(other, longest);
    let significand = quotient_significand(MAX_DIMENSION as int, longest as int);
    lemma_quotient_shift_range(MAX_DIMENSION as int, longest as int);
    lemma_pow2_pos(quotient_shift(MAX_DIMENSION as int, longest as int));
    assert(0 <= MAX_DIMENSION * x) by (nonlinear_arith)
        requires
            0 < x,
    ;
    lemma_nearest_even_bounds(MAX_DIMENSION * x, longest as int);
    assert(p <= q) by (nonlinear_arith)
        requires
            p == side * significand,
            q == other * significand,
            side <= other,
            0 <= significand,
    ;
    lemma_round_to_double_monotone(p as nat, q as nat);
    vstd::arithmetic::div_mod::lemma_div_is_ordered(r, s, x);
}

/// Computes what one side becomes when the longest side is `longest`.
pub fn scale_side(side: u32, longest: u32) -> (scaled: u32)
    requires
        side <= longest,
        longest > MAX_DIMENSION,
    ensures
        scaled == scaled_side(side as nat, longest as nat),
        scaled <= MAX_DIMENSION,
{
    let mut shifted: u128 = 1280;
    let mut divisor: u128 = 1;
    let ghost mut k: nat = 0;
    let target: u128 = longest as u128 * 0x10_0000_0000_0000;
    proof {
        vstd::arithmetic::power2::lemma2_to64();
    }
    while shifted < target
        invariant
            longest > 1280,
            target == longest * 0x10_0000_0000_0000,
            0 < shifted < 2 * target,
            divisor == pow2(k),
            shifted == 1280 * pow2(k),
            quotient_shift(1280, longest as int) == k + quotient_shift(
                shifted as int,
                longest as int,
            ),
        decreases 2 * target - shifted,
    {
        proof {
            lemma_pow2_unfold(k + 1);
            k = k + 1;
        }
        shifted = shifted * 2;
        divisor = divisor * 2;
    }
    let ghost x = divisor as int;
    let significand: u128 = nearest_even_exec(shifted, longest as u128);
    proof {
        assert(1280 * x == MAX_DIMENSION * pow2(k)) by (nonlinear_arith)
            requires
                MAX_DIMENSION == 1280,
                x == pow2(k),
        ;
        lemma_nearest_even_bounds(shifted as int, longest as int);
        assert(significand <= 0x20_0000_0000_0001) by (nonlinear_arith)
            requires
                2 * (significand * longest) <= 2 * shifted + longest,
                shifted < 0x20_0000_0000_0000 * longest,
                longest > 0,
        ;
        assert(side * significand <= 0xffff_ffff * 0x20_0000_0000_0001) by (nonlinear_arith)
            requires
                0 <= side <= 0xffff_ffff,
                0 <= significand <= 0x20_0000_0000_0001,
        ;
    }
    let product: u128 = side as u128 * significand;
    let mut rest: u128 = product;
    let mut unit: u128 = 1;
    let ghost mut t: nat = 0;
    while rest >= 0x20_0000_0000_0000
        invariant
            unit == pow2(t),
            rest * unit <= product,
            product <= 0xffff_ffff * 0x20_0000_0000_0001,
            excess_bits(product as nat) == t + excess_bits(rest as nat),
        decreases rest,
    {
        proof {
            lemma_pow2_unfold(t + 1);
            assert(unit <= product) by (nonlinear_arith)
                requires
                    rest * unit <= product,
                    rest >= 1,
            ;
            assert((rest / 2) * (unit * 2) <= rest * unit) by (nonlinear_arith);
            t = t + 1;
        }
        rest = rest / 2;
        unit = unit * 2;
    }
    proof {
        lemma_pow2_pos(t);
        lemma_excess_bits_range(product as nat);
        lemma_nearest_even_bounds(product as int, unit as int);
        scaled_side_within_limit(side as nat, longest as nat);
    }
    let rounded: u128 = nearest_even_exec(product, unit) * unit;
    (rounded / divisor) as u32
}

/// The size to which a screenshot is scaled down, or `None` where it is sent as it is.
pub fn fit_within_limit(width: u32, height: u32) -> (size: Option<(u32, u32)>)
    ensures
        size is Some <==> exceeds_limit(width, height),
        size matches Some((w, h)) ==> {
            &&& w == scaled_side(width as nat, longest_side(width, height) as nat)
            &&& h == scaled_side(height as nat, longest_side(width, height) as nat)
            &&& w <= MAX_DIMENSION
            &&& h <= MAX_DIMENSION
        },
{
    if width > MAX_DIMENSION || height > MAX_DIMENSION {
        let longest: u32 = if width >= height { width } else { height };
        Some((scale_side(width, longest), scale_side(height, longest)))
    } else {
        None
    }
}

} // verus!
