//! Laws of pixel sizes, stated on the bits of the scale.

use vstd::arithmetic::div_mod::*;
use vstd::arithmetic::mul::*;
use vstd::arithmetic::power2::*;
use vstd::prelude::*;

use crate::binary;
use crate::binary::{scale_size, Binary32};
use crate::scaling;

verus! {

/// The bits are those of a positive number: neither zero, infinite nor not-a-number.
pub open spec fn is_positive(bits: u32) -> bool {
    0 < bits < 0x7F80_0000
}

/// The whole number that a positive number is a power of two times.
pub open spec fn mantissa(bits: u32) -> nat {
    if bits < 0x80_0000 {
        bits as nat
    } else {
        (0x80_0000 + bits % 0x80_0000) as nat
    }
}

/// The exponent of that power of two.
pub open spec fn binade(bits: u32) -> int {
    if bits < 0x80_0000 {
        -149
    } else {
        bits / 0x80_0000 - 150
    }
}

/// The positive number with these bits is the whole number `k`.
pub open spec fn is_whole(bits: u32, k: nat) -> bool {
    &&& is_positive(bits)
    &&& if binade(bits) >= 0 {
        mantissa(bits) * pow2(binade(bits) as nat) == k
    } else {
        mantissa(bits) == k * pow2((-binade(bits)) as nat)
    }
}

/// `r` is the largest whole number that is at most `p * 2^e`, or the largest that a
/// `u32` holds where that is smaller.
pub open spec fn is_floor(r: u32, p: nat, e: int) -> bool {
    if e >= 0 {
        if p * pow2(e as nat) > u32::MAX {
            r == u32::MAX
        } else {
            r == p * pow2(e as nat)
        }
    } else {
        &&& r * pow2((-e) as nat) <= p
        &&& r < u32::MAX ==> p < (r + 1) * pow2((-e) as nat)
    }
}

/// A number, or the largest `u32` where that is smaller.
pub open spec fn capped(n: int) -> int {
    if n > u32::MAX {
        u32::MAX as int
    } else {
        n
    }
}

/// The parts of a positive number are those that its bits say.
proof fn lemma_parts(scale: Binary32)
    requires
        is_positive(scale.bits),
    ensures
        scale.significand() == mantissa(scale.bits),
        scale.exponent() == binade(scale.bits),
        !scale.is_nan(),
        !scale.is_infinite(),
        !scale.negative(),
        0 < mantissa(scale.bits) < 0x100_0000,
{
}

/// A quotient is a floor.
pub proof fn lemma_floor(p: nat, e: int)
    requires
        e < 0,
    ensures
        ({
            let whole = p / pow2((-e) as nat);
            is_floor(
                if whole > u32::MAX {
                    u32::MAX
                } else {
                    whole as u32
                },
                p,
                e,
            )
        }),
{
    let d = pow2((-e) as nat);
    lemma_pow2_pos((-e) as nat);
    lemma_fundamental_div_mod(p as int, d as int);
    lemma_mod_bound(p as int, d as int);
    let q = p / d;
    assert(q * d <= p && p < (q + 1) * d) by (nonlinear_arith)
        requires
            p == d * q + p % d,
            0 <= p % d < d,
    ;
    if q > u32::MAX {
        assert(u32::MAX * d <= q * d) by (nonlinear_arith)
            requires
                q > u32::MAX,
                d > 0,
        ;
    }
}

/// Where the product needs no more than 53 bits, a scaled size is the size times the
/// scale without its fraction, up to the largest `u32`.
pub proof fn law_scaling_of(m: u32, e: i32, scale: Binary32)
    requires
        is_positive(scale.bits),
        m * mantissa(scale.bits) < 0x20_0000_0000_0000,
    ensures
        is_floor(
            binary::scaled(m as nat, e as int, scale) as u32,
            (m * mantissa(scale.bits)) as nat,
            e + binade(scale.bits),
        ),
{
    lemma_parts(scale);
    let r = binary::scaled(m as nat, e as int, scale);
    assert(r <= u32::MAX);
    let p = (m * mantissa(scale.bits)) as nat;
    let x = e + binade(scale.bits);
    scaling::law_small_is_exact(p);
    assert(m as nat * scale.significand() == p);
    if m == 0 {
        lemma_mul_basics_1(mantissa(scale.bits) as int);
        assert(r == 0 && r as u32 == 0);
        if x >= 0 {
            lemma_mul_basics_1(pow2(x as nat) as int);
        } else {
            lemma_pow2_pos((-x) as nat);
            lemma_mul_basics_1(pow2((-x) as nat) as int);
            lemma_mul_basics_3(pow2((-x) as nat) as int);
        }
    } else if x < 0 {
        lemma_floor(p, x);
    } else {
        assert(r as u32 == r);
    }
}

/// Every scaled size is the product, rounded to 53 bits, without its fraction, up to the
/// largest `u32`.
pub proof fn law_scaling_rounds_and_drops_the_fraction(m: u32, e: i32, scale: Binary32, r: u32)
    requires
        call_ensures(scale_size, (m, e, scale), r),
        is_positive(scale.bits),
    ensures
        is_floor(
            r,
            binary::nearest((m * mantissa(scale.bits)) as nat),
            e + binade(scale.bits),
        ),
{
    lemma_parts(scale);
    let p = (m * mantissa(scale.bits)) as nat;
    let x = e + binade(scale.bits);
    if m == 0 {
        lemma_mul_basics_1(mantissa(scale.bits) as int);
        law_scaling_of(m, e, scale);
        scaling::law_small_is_exact(0);
    } else if x < 0 {
        lemma_floor(binary::nearest(p), x);
    }
}

/// The parts of a positive number that a call gives are those that its bits say.
pub proof fn law_magnitude_goes_by_the_bits(b: Binary32, bits: u32, r: (u32, i32), made: Binary32)
    requires
        call_ensures(Binary32::magnitude, (b,), r),
        call_ensures(Binary32::from_bits, (bits,), made),
        is_positive(b.bits),
    ensures
        r.0 == mantissa(b.bits),
        r.1 == binade(b.bits),
        made.bits == bits,
{
    lemma_parts(b);
}

/// A whole scale multiplies every size by that number, up to the largest `u32`.
pub proof fn law_whole_scaling_of(n: u32, scale: Binary32, k: nat)
    requires
        is_whole(scale.bits, k),
    ensures
        binary::scaled(n as nat, 0, scale) == capped(n * k),
{
    lemma_parts(scale);
    let s = mantissa(scale.bits);
    let x = binade(scale.bits);
    let p = (n * s) as nat;
    let nk = (n * k) as nat;
    scaling::law_small_is_exact(0x1F_FFFF_FFFF_FFFF);
    if n == 0 {
        lemma_mul_basics_1(k as int);
    } else if x < 0 {
        let up = (-x) as nat;
        assert(p == nk * pow2(up)) by (nonlinear_arith)
            requires
                p == n * s,
                s == k * pow2(up),
                nk == n * k,
        ;
        scaling::lemma_nearest_shifts(nk, up);
        lemma_pow2_pos(up);
        let a = binary::nearest(nk);
        lemma_div_multiples_vanish(a as int, pow2(up) as int);
        lemma_mul_is_commutative(a as int, pow2(up) as int);
        assert(binary::nearest(p) / pow2(up) == a);
        if nk < 0x20_0000_0000_0000 {
            scaling::law_small_is_exact(nk);
        } else {
            scaling::law_nearest_is_monotonic(0x1F_FFFF_FFFF_FFFF, nk);
        }
    } else {
        let up = x as nat;
        lemma_pow2_pos(up);
        assert(nk == p * pow2(up)) by (nonlinear_arith)
            requires
                p == n * s,
                k == s * pow2(up),
                nk == n * k,
        ;
        if p < 0x20_0000_0000_0000 {
            scaling::law_small_is_exact(p);
        } else {
            scaling::law_nearest_is_monotonic(0x1F_FFFF_FFFF_FFFF, p);
            let a = binary::nearest(p);
            assert(a * pow2(up) >= a && p * pow2(up) >= p) by (nonlinear_arith)
                requires
                    pow2(up) >= 1,
                    a >= 0,
                    p >= 0,
            ;
        }
    }
}

/// A call gives the size times the scale without its fraction, up to the largest `u32`.
pub proof fn law_scaling_drops_the_fraction(m: u32, e: i32, scale: Binary32, r: u32)
    requires
        call_ensures(scale_size, (m, e, scale), r),
        is_positive(scale.bits),
        m * mantissa(scale.bits) < 0x20_0000_0000_0000,
    ensures
        is_floor(r, (m * mantissa(scale.bits)) as nat, e + binade(scale.bits)),
{
    law_scaling_of(m, e, scale);
}

/// A call with a whole scale gives the size times that number, up to the largest `u32`.
pub proof fn law_whole_scales_multiply(n: u32, scale: Binary32, k: nat, r: u32)
    requires
        call_ensures(scale_size, (n, 0i32, scale), r),
        is_whole(scale.bits, k),
    ensures
        r == capped(n * k),
{
    law_whole_scaling_of(n, scale, k);
}

/// Scales that are no positive numbers: below zero and not-a-number leave no pixels,
/// zero neither, and infinity leaves as many as a `u32` holds.
pub proof fn law_unusual_scales(m: u32, e: i32, scale: Binary32, r: u32)
    requires
        call_ensures(scale_size, (m, e, scale), r),
        !is_positive(scale.bits),
    ensures
        scale.bits == 0x7F80_0000 && m > 0 ==> r == u32::MAX,
        scale.bits != 0x7F80_0000 || m == 0 ==> r == 0,
{
    if scale.bits == 0 && m > 0 {
        assert(scale.significand() == 0);
        assert(m as nat * scale.significand() == 0) by (nonlinear_arith)
            requires
                scale.significand() == 0,
        ;
        scaling::law_small_is_exact(0);
        let x = e + scale.exponent();
        if x >= 0 {
            lemma_mul_basics_1(pow2(x as nat) as int);
        } else {
            lemma_pow2_pos((-x) as nat);
            lemma_div_basics_1(pow2((-x) as nat) as int);
        }
    }
}

/// A product of more than 53 bits is rounded to its 53 highest bits: to the nearest
/// multiple of their unit, and to the even one of two that are equally near.
pub proof fn law_rounding_is_to_nearest_even(p: nat, k: nat)
    requires
        0x10_0000_0000_0000 * pow2(k) <= p < 0x20_0000_0000_0000 * pow2(k),
    ensures
        p < 0x20_0000_0000_0000 ==> binary::nearest(p) == p,
        ({
            let unit = pow2(k) as int;
            let q = binary::nearest(p) as int;
            &&& q % unit == 0
            &&& -unit <= 2 * (q - p) <= unit
            &&& 2 * (q - p) == unit || 2 * (p - q) == unit ==> (q / unit) % 2 == 0
        }),
{
    let j = binary::excess_bits(p);
    if p < 0x20_0000_0000_0000 {
        scaling::law_small_is_exact(p);
    }
    lemma_pow2_pos(k);
    scaling::lemma_excess_bounds(p);
    let u = pow2(j) as int;
    let v = pow2(k) as int;
    lemma_fundamental_div_mod(p as int, u);
    lemma_mod_bound(p as int, u);
    if k == 0 {
        lemma2_to64();
        scaling::law_small_is_exact(p);
        assert(v == 1);
        assert((p as int) % 1 == 0) by (nonlinear_arith);
    } else {
        let a = (p as int) / u;
        if j < k {
            if j + 1 < k {
                lemma_pow2_strictly_increases(j, (k - 1) as nat);
            }
            lemma_pow2_unfold(k);
            assert(2 * u <= v);
            assert(false) by (nonlinear_arith)
                requires
                    0x10_0000_0000_0000 * v <= p,
                    p == u * a + p as int % u,
                    0 <= p as int % u < u,
                    a < 0x20_0000_0000_0000,
                    2 * u <= v,
                    u > 0,
            ;
        }
        if j > k {
            if k + 1 < j {
                lemma_pow2_strictly_increases(k, (j - 1) as nat);
            }
            lemma_pow2_unfold(j);
            assert(2 * v <= u);
            assert(false) by (nonlinear_arith)
                requires
                    p < 0x20_0000_0000_0000 * v,
                    p == u * a + p as int % u,
                    0 <= p as int % u,
                    a >= 0x10_0000_0000_0000,
                    2 * v <= u,
                    v > 0,
            ;
        }
        let n = binary::nearest_even(p, pow2(k)) as int;
        let q = binary::nearest(p) as int;
        assert(q == n * v);
        lemma_div_multiples_vanish(n, v);
        lemma_mul_is_commutative(n, v);
        lemma_mod_multiples_basic(n, v);
        assert(a * v + (p as int) % v == p) by (nonlinear_arith)
            requires
                p == v * a + p as int % v,
        ;
        assert((a + 1) * v == a * v + v) by (nonlinear_arith);
    }
}

} // verus!
