//! Laws of pixel arithmetic: scaling is exact where nothing needs rounding, doubles
//! with the scale, and keeps the order of sizes.

use vstd::arithmetic::div_mod::*;
use vstd::arithmetic::mul::*;
use vstd::arithmetic::power2::*;
use vstd::prelude::*;

use crate::binary;
use crate::binary::Binary32;

verus! {

/// `a * 2^e`, without its fractional part.
pub open spec fn shifted(a: nat, e: int) -> nat {
    if e >= 0 {
        a * pow2(e as nat)
    } else {
        a / pow2((-e) as nat)
    }
}

/// Rounding to the nearest multiple stays within one step of the quotient.
proof fn lemma_nearest_even_bounds(p: nat, unit: nat)
    requires
        unit > 0,
    ensures
        p / unit <= binary::nearest_even(p, unit) <= p / unit + 1,
        p % unit == 0 ==> binary::nearest_even(p, unit) == p / unit,
{
}

/// Rounding to multiples of one unit keeps the order.
proof fn lemma_nearest_even_monotonic(p: nat, q: nat, unit: nat)
    requires
        unit > 0,
        p <= q,
    ensures
        binary::nearest_even(p, unit) <= binary::nearest_even(q, unit),
{
    lemma_div_is_ordered(p as int, q as int, unit as int);
    lemma_nearest_even_bounds(p, unit);
    lemma_nearest_even_bounds(q, unit);
    if p / unit == q / unit {
        lemma_fundamental_div_mod(p as int, unit as int);
        lemma_fundamental_div_mod(q as int, unit as int);
    }
}

/// What is left of a number without its excess bits fits fifty-three bits, and
/// fills them where there was excess.
pub proof fn lemma_excess_bounds(p: nat)
    ensures
        p / pow2(binary::excess_bits(p)) < 0x20_0000_0000_0000,
        binary::excess_bits(p) > 0 ==> p / pow2(binary::excess_bits(p)) >= 0x10_0000_0000_0000,
        pow2(binary::excess_bits(p)) > 0,
    decreases p,
{
    let k = binary::excess_bits(p);
    lemma_pow2_pos(k);
    if p < 0x20_0000_0000_0000 {
        lemma2_to64();
        lemma_div_basics_3(p as int);
    } else {
        lemma_excess_bounds(p / 2);
        let j = binary::excess_bits(p / 2);
        lemma_pow2_unfold(k);
        lemma_pow2_pos(j);
        lemma_div_denominator(p as int, 2, pow2(j) as int);
        if j == 0 {
            lemma2_to64();
            lemma_div_basics_3((p / 2) as int);
        }
    }
}

/// A larger number has no fewer excess bits.
proof fn lemma_excess_monotonic(p: nat, q: nat)
    requires
        p <= q,
    ensures
        binary::excess_bits(p) <= binary::excess_bits(q),
    decreases p,
{
    if p >= 0x20_0000_0000_0000 {
        lemma_excess_monotonic(p / 2, q / 2);
    }
}

/// Nothing is rounded that has at most fifty-three bits.
pub proof fn law_small_is_exact(p: nat)
    requires
        p < 0x20_0000_0000_0000,
    ensures
        binary::nearest(p) == p,
{
    lemma2_to64();
    assert(binary::excess_bits(p) == 0);
    assert(p % 1 == 0 && p / 1 == p) by (nonlinear_arith);
    assert(binary::nearest_even(p, 1) == p);
    assert(p * 1 == p) by (nonlinear_arith);
}

/// Rounding keeps the order.
pub proof fn law_nearest_is_monotonic(p: nat, q: nat)
    requires
        p <= q,
    ensures
        binary::nearest(p) <= binary::nearest(q),
{
    let k = binary::excess_bits(p);
    let l = binary::excess_bits(q);
    let u = pow2(k);
    let v = pow2(l);
    lemma_excess_monotonic(p, q);
    lemma_excess_bounds(p);
    lemma_excess_bounds(q);
    lemma_nearest_even_bounds(p, u);
    lemma_nearest_even_bounds(q, v);
    if k == l {
        lemma_nearest_even_monotonic(p, q, u);
        lemma_mul_inequality(
            binary::nearest_even(p, u) as int,
            binary::nearest_even(q, u) as int,
            u as int,
        );
    } else {
        lemma_pow2_unfold(l);
        if k + 1 < l {
            lemma_pow2_strictly_increases(k, (l - 1) as nat);
        }
        assert(2 * u <= v);
        let a = binary::nearest_even(p, u) as int;
        let b = binary::nearest_even(q, v) as int;
        assert(a * u <= b * v) by (nonlinear_arith)
            requires
                0 <= a <= 0x20_0000_0000_0000,
                b >= 0x10_0000_0000_0000,
                0 < u,
                2 * u <= v,
        ;
    }
}

/// Rounding commutes with doubling.
pub proof fn law_nearest_doubles(p: nat)
    ensures
        binary::nearest(2 * p) == 2 * binary::nearest(p),
{
    lemma2_to64();
    let k = binary::excess_bits(p);
    let u = pow2(k);
    lemma_excess_bounds(p);
    if 2 * p < 0x20_0000_0000_0000 {
        law_small_is_exact(p);
        law_small_is_exact(2 * p);
    } else {
        assert((2 * p) / 2 == p);
        assert(binary::excess_bits(2 * p) == k + 1);
        lemma_pow2_unfold(k + 1);
        lemma_doubled_division(p, u);
        let n = binary::nearest_even(p, u);
        assert(binary::nearest_even(2 * p, 2 * u) == n);
        assert(n * (2 * u) == 2 * (n * u)) by (nonlinear_arith);
    }
}

/// Doubling both a number and the unit keeps the quotient and doubles the
/// remainder.
proof fn lemma_doubled_division(p: nat, u: nat)
    requires
        u > 0,
    ensures
        (2 * p) / (2 * u) == p / u,
        (2 * p) % (2 * u) == 2 * (p % u),
{
    lemma_fundamental_div_mod(p as int, u as int);
    lemma_mod_bound(p as int, u as int);
    let q = (p / u) as int;
    let r = (p % u) as int;
    assert(2 * p == q * (2 * u) + 2 * r) by (nonlinear_arith)
        requires
            p == u * q + r,
    ;
    lemma_fundamental_div_mod_converse((2 * p) as int, (2 * u) as int, q, 2 * r);
}

/// Rounding commutes with multiplying by a power of two.
pub proof fn lemma_nearest_shifts(p: nat, e: nat)
    ensures
        binary::nearest(p * pow2(e)) == binary::nearest(p) * pow2(e),
    decreases e,
{
    if e == 0 {
        lemma2_to64();
        lemma_mul_basics_3(p as int);
        lemma_mul_basics_3(binary::nearest(p) as int);
    } else {
        let d = (e - 1) as nat;
        lemma_nearest_shifts(p, d);
        lemma_pow2_unfold(e);
        lemma_pow2_pos(d);
        assert(p * pow2(e) == 2 * (p * pow2(d))) by (nonlinear_arith)
            requires
                pow2(e) == 2 * pow2(d),
        ;
        law_nearest_doubles((p * pow2(d)) as nat);
        assert(binary::nearest(p) * pow2(e) == 2 * (binary::nearest(p) * pow2(d)))
            by (nonlinear_arith)
            requires
                pow2(e) == 2 * pow2(d),
        ;
    }
}

/// A larger number shifts to no smaller one.
proof fn lemma_shifted_monotonic(a: nat, b: nat, e: int)
    requires
        a <= b,
    ensures
        shifted(a, e) <= shifted(b, e),
{
    if e >= 0 {
        lemma_mul_inequality(a as int, b as int, pow2(e as nat) as int);
    } else {
        lemma_pow2_pos((-e) as nat);
        lemma_div_is_ordered(a as int, b as int, pow2((-e) as nat) as int);
    }
}

/// Shifting up first and then by the rest is shifting once.
pub proof fn lemma_shifted_composes(a: nat, up: nat, e: int)
    ensures
        shifted(a * pow2(up), e) == shifted(a, e + up),
{
    lemma_pow2_pos(up);
    if e >= 0 {
        lemma_pow2_adds(up, e as nat);
        lemma_mul_is_associative(a as int, pow2(up) as int, pow2(e as nat) as int);
    } else {
        let down = (-e) as nat;
        lemma_pow2_pos(down);
        if up >= down {
            let rest = (up - down) as nat;
            lemma_pow2_adds(rest, down);
            lemma_mul_is_associative(a as int, pow2(rest) as int, pow2(down) as int);
            lemma_div_multiples_vanish((a * pow2(rest)) as int, pow2(down) as int);
            lemma_mul_is_commutative((a * pow2(rest)) as int, pow2(down) as int);
        } else {
            let rest = (down - up) as nat;
            lemma_pow2_pos(rest);
            lemma_pow2_adds(up, rest);
            lemma_div_denominator((a * pow2(up)) as int, pow2(up) as int, pow2(rest) as int);
            lemma_div_multiples_vanish(a as int, pow2(up) as int);
            lemma_mul_is_commutative(a as int, pow2(up) as int);
        }
    }
}

/// The size `m * 2^e` is at most `n`.
pub open spec fn size_at_most(m: nat, e: int, n: nat) -> bool {
    if e >= 0 {
        m * pow2(e as nat) <= n
    } else {
        m <= n * pow2((-e) as nat)
    }
}

/// A size that is at most `n` CSS pixels takes at most as many physical pixels as
/// `n` CSS pixels do.
pub proof fn law_scaling_keeps_order(m: nat, e: int, n: nat, scale: Binary32)
    requires
        size_at_most(m, e, n),
    ensures
        binary::scaled(m, e, scale) <= binary::scaled(n, 0, scale),
{
    let s = scale.significand();
    let x = scale.exponent();
    if e >= 0 {
        lemma_pow2_pos(e as nat);
    } else {
        lemma_pow2_pos((-e) as nat);
    }
    if m > 0 {
        if n == 0 {
            if e >= 0 {
                assert(m * pow2(e as nat) > 0) by (nonlinear_arith)
                    requires
                        m > 0,
                        pow2(e as nat) > 0,
                ;
            } else {
                lemma_mul_basics_1(pow2((-e) as nat) as int);
            }
        }
        assert(n > 0);
        let a = binary::nearest(m * s);
        let b = binary::nearest(n * s);
        if e >= 0 {
            let up = e as nat;
            assert((m * s) * pow2(up) <= n * s) by (nonlinear_arith)
                requires
                    m * pow2(up) <= n,
                    s >= 0,
            ;
            lemma_nearest_shifts(m * s, up);
            law_nearest_is_monotonic((m * s) * pow2(up), n * s);
            lemma_shifted_composes(a, up, x);
            lemma_shifted_monotonic(a * pow2(up), b, x);
        } else {
            let up = (-e) as nat;
            assert(m * s <= (n * s) * pow2(up)) by (nonlinear_arith)
                requires
                    m <= n * pow2(up),
                    s >= 0,
            ;
            lemma_nearest_shifts(n * s, up);
            law_nearest_is_monotonic(m * s, (n * s) * pow2(up));
            lemma_shifted_composes(b, up, e + x);
            lemma_shifted_monotonic(a, b * pow2(up), e + x);
        }
    }
}

/// Where the product needs at most fifty-three bits, scaling is exact but for the
/// dropped fraction and the limit of `u32`.
pub proof fn law_scaling_is_exact(n: nat, scale: Binary32)
    requires
        !scale.is_nan(),
        !scale.is_infinite(),
        !scale.negative(),
        n * scale.significand() < 0x20_0000_0000_0000,
    ensures
        binary::scaled(n, 0, scale) == if shifted(n * scale.significand(), scale.exponent())
            > u32::MAX {
            u32::MAX as nat
        } else {
            shifted(n * scale.significand(), scale.exponent())
        },
{
    let p = n * scale.significand();
    law_small_is_exact(p);
    if n == 0 {
        lemma_mul_basics_1(scale.significand() as int);
        if scale.exponent() >= 0 {
            lemma_mul_basics_1(pow2(scale.exponent() as nat) as int);
        } else {
            lemma_pow2_pos((-scale.exponent()) as nat);
            lemma_div_basics_1(pow2((-scale.exponent()) as nat) as int);
        }
    }
}

/// A scale of a power of two: its fraction bits are zero.
pub open spec fn is_power_of_two(scale: Binary32, e: nat) -> bool {
    scale.bits == 0x3F80_0000 + e * 0x80_0000
}

/// A scale of `2^e` multiplies every size by `2^e`, up to the limit of `u32`. With
/// `e` of zero that leaves it as it is.
pub proof fn law_power_of_two_scales(n: u32, e: nat, scale: Binary32)
    requires
        e <= 31,
        is_power_of_two(scale, e),
    ensures
        binary::scaled(n as nat, 0, scale) == if n * pow2(e) > u32::MAX {
            u32::MAX as nat
        } else {
            (n * pow2(e)) as nat
        },
{
    lemma2_to64();
    assert(scale.field() == 127 + e) by {
        assert(scale.bits / 0x80_0000 == 127 + e);
    }
    assert(scale.fraction() == 0);
    assert(scale.significand() == pow2(23));
    assert(scale.exponent() == e - 23);
    lemma_nearest_shifts(n as nat, 23);
    law_small_is_exact(n as nat);
    lemma_shifted_composes(n as nat, 23, e - 23);
    if n == 0 {
        lemma_mul_basics_1(pow2(e) as int);
    }
}

} // verus!
