//! Pixel arithmetic on binary floating-point values, done on integers.
//!
//! A device pixel ratio or a measured height reaches the library as the bit
//! pattern of a 32-bit binary float. Sizes in pixels are products of such values
//! in 64-bit binary floating point, truncated to `u32`. Both the exact product
//! and its rounding to 53 significant bits are integer computations.

use vstd::arithmetic::div_mod::*;
use vstd::arithmetic::mul::*;
use vstd::arithmetic::power2::*;
use vstd::prelude::*;

verus! {

/// A 32-bit binary floating-point value, by its bit pattern.
#[derive(Clone, Copy, Debug, PartialEq, Eq, Structural)]
pub struct Binary32 {
    pub bits: u32,
}

impl Binary32 {
    /// The sign bit.
    pub open spec fn negative(self) -> bool {
        self.bits >= 0x8000_0000
    }

    /// The eight bits of the biased exponent.
    pub open spec fn field(self) -> nat {
        ((self.bits / 0x80_0000) % 0x100) as nat
    }

    /// The twenty-three bits of the fraction.
    pub open spec fn fraction(self) -> nat {
        (self.bits % 0x80_0000) as nat
    }

    pub open spec fn is_nan(self) -> bool {
        self.field() == 0xFF && self.fraction() != 0
    }

    pub open spec fn is_infinite(self) -> bool {
        self.field() == 0xFF && self.fraction() == 0
    }

    pub open spec fn is_zero(self) -> bool {
        self.field() == 0 && self.fraction() == 0
    }

    /// The integer significand of a finite value, whose magnitude is
    /// `significand * 2^exponent`.
    pub open spec fn significand(self) -> nat {
        if self.field() == 0 {
            self.fraction()
        } else {
            self.fraction() + 0x80_0000
        }
    }

    /// The power of two that goes with the significand.
    pub open spec fn exponent(self) -> int {
        if self.field() == 0 {
            -149
        } else {
            self.field() - 150
        }
    }

    /// The value is at most zero. Not-a-number is not.
    pub open spec fn at_most_zero(self) -> bool {
        !self.is_nan() && (self.negative() || self.is_zero())
    }

    /// The value is greater than the whole number `n`. Not-a-number is not.
    pub open spec fn exceeds(self, n: nat) -> bool {
        &&& !self.is_nan()
        &&& !self.negative()
        &&& self.is_infinite() || if self.exponent() >= 0 {
            self.significand() * pow2(self.exponent() as nat) > n
        } else {
            self.significand() > n * pow2((-self.exponent()) as nat)
        }
    }

    /// The value with the given bit pattern.
    pub fn from_bits(bits: u32) -> (r: Self)
        ensures
            r.bits == bits,
    {
        Binary32 { bits }
    }

    /// Sign, significand and exponent. The last two mean nothing where the
    /// exponent bits are all ones.
    fn parts(self) -> (r: (bool, u32, u32, i32))
        ensures
            r.0 == self.negative(),
            r.1 == self.field(),
            r.2 == self.significand(),
            r.3 == self.exponent(),
            r.2 < 0x100_0000,
            -149 <= r.3 <= 105,
    {
        let field: u32 = (self.bits / 0x80_0000) % 0x100;
        let fraction: u32 = self.bits % 0x80_0000;
        let negative = self.bits >= 0x8000_0000;
        if field == 0 {
            (negative, field, fraction, -149)
        } else {
            (negative, field, fraction + 0x80_0000, field as i32 - 150)
        }
    }

    /// Significand and exponent.
    pub fn magnitude(self) -> (r: (u32, i32))
        ensures
            r.0 == self.significand(),
            r.1 == self.exponent(),
            -149 <= r.1 <= 105,
    {
        let (_, _, m, e) = self.parts();
        (m, e)
    }

    /// Whether the value is at most zero.
    pub fn is_at_most_zero(self) -> (r: bool)
        ensures
            r == self.at_most_zero(),
    {
        let field: u32 = (self.bits / 0x80_0000) % 0x100;
        let fraction: u32 = self.bits % 0x80_0000;
        let nan = field == 0xFF && fraction != 0;
        let zero = field == 0 && fraction == 0;
        !nan && (self.bits >= 0x8000_0000 || zero)
    }

    /// Whether the value is greater than `n`.
    pub fn is_greater_than(self, n: u32) -> (r: bool)
        ensures
            r == self.exceeds(n as nat),
    {
        let (negative, field, m, e) = self.parts();
        if negative {
            return false;
        }
        if field == 0xFF {
            return self.bits % 0x80_0000 == 0;
        }
        if e >= 0 {
            if e >= 32 {
                proof {
                    lemma_pow2_at_least(32, e as nat);
                    assert(m as nat * pow2(e as nat) >= pow2(32)) by (nonlinear_arith)
                        requires
                            m >= 1,
                            pow2(e as nat) >= pow2(32),
                    ;
                }
                true
            } else {
                let unit = power(e as u32);
                proof {
                    lemma_mul_bound(m as int, 0x100_0000, unit as int, 0x1_0000_0000_0000_0000);
                }
                m as u128 * unit > n as u128
            }
        } else {
            let k: u32 = (-e) as u32;
            if k >= 32 {
                proof {
                    lemma_pow2_at_least(32, k as nat);
                    if n > 0 {
                        assert(n as nat * pow2(k as nat) >= pow2(32)) by (nonlinear_arith)
                            requires
                                n >= 1,
                                pow2(k as nat) >= pow2(32),
                        ;
                    }
                }
                n == 0 && m > 0
            } else {
                let unit = power(k);
                proof {
                    lemma_mul_bound(n as int, 0x1_0000_0000, unit as int, 0x1_0000_0000_0000_0000);
                }
                m as u128 > n as u128 * unit
            }
        }
    }
}

/// Powers of two grow with the exponent; the thirty-second is spelled out.
proof fn lemma_pow2_at_least(k: nat, e: nat)
    requires
        k <= e,
    ensures
        pow2(k) <= pow2(e),
        pow2(32) == 0x1_0000_0000,
{
    lemma2_to64();
    if k < e {
        lemma_pow2_strictly_increases(k, e);
    }
}

/// A product of two bounded factors is bounded.
proof fn lemma_mul_bound(a: int, x: int, b: int, y: int)
    requires
        0 <= a <= x,
        0 <= b <= y,
    ensures
        0 <= a * b <= x * y,
{
    lemma_mul_upper_bound(a, x, b, y);
    lemma_mul_nonnegative(a, b);
}

/// `2^k`.
fn power(k: u32) -> (r: u128)
    requires
        k <= 64,
    ensures
        r == pow2(k as nat),
        r <= 0x1_0000_0000_0000_0000,
{
    let mut r: u128 = 1;
    let mut i: u32 = 0;
    proof {
        lemma2_to64();
        lemma2_to64_rest();
    }
    while i < k
        invariant
            i <= k <= 64,
            r == pow2(i as nat),
            pow2(64) == 0x1_0000_0000_0000_0000,
        decreases k - i,
    {
        proof {
            lemma_pow2_unfold((i + 1) as nat);
            lemma_pow2_at_least((i + 1) as nat, 64);
        }
        r = r * 2;
        i = i + 1;
    }
    proof {
        lemma_pow2_at_least(k as nat, 64);
    }
    r
}

/// How many low bits a number has beyond the fifty-three that a 64-bit binary
/// float keeps.
pub open spec fn excess_bits(p: nat) -> nat
    decreases p,
{
    if p < 0x20_0000_0000_0000 {
        0
    } else {
        1 + excess_bits(p / 2)
    }
}

/// `p / unit` rounded to the nearest whole number, ties to the even one.
pub open spec fn nearest_even(p: nat, unit: nat) -> nat {
    let q = p / unit;
    let r = p % unit;
    if 2 * r < unit || (2 * r == unit && q % 2 == 0) {
        q
    } else {
        q + 1
    }
}

/// The 64-bit binary float nearest to `p`, ties to even.
pub open spec fn nearest(p: nat) -> nat {
    let unit = pow2(excess_bits(p));
    nearest_even(p, unit) * unit
}

/// The 64-bit binary float nearest to `p * 2^e`, converted to `u32`: the
/// fractional part is dropped and what is too large becomes `u32::MAX`.
pub open spec fn truncated(p: nat, e: int) -> nat {
    let whole = if e >= 0 {
        nearest(p) * pow2(e as nat)
    } else {
        nearest(p) / pow2((-e) as nat)
    };
    if whole > u32::MAX {
        u32::MAX as nat
    } else {
        whole
    }
}

/// The size `m * 2^e` times a scale, in 64-bit binary floating point, converted
/// to `u32`. Negative scales and not-a-number give zero.
pub open spec fn scaled(m: nat, e: int, scale: Binary32) -> nat {
    if scale.is_nan() || scale.negative() || m == 0 {
        0
    } else if scale.is_infinite() {
        u32::MAX as nat
    } else {
        truncated(m * scale.significand(), e + scale.exponent())
    }
}

/// Rounds to fifty-three significant bits.
fn round_nearest(p: u128) -> (r: u128)
    requires
        p < 0x20_0000_0000_0000_0000_0000,
    ensures
        r == nearest(p as nat),
        r <= 0x20_0000_0000_0000_0000_0000,
{
    let mut unit: u128 = 1;
    let ghost mut k: nat = 0;
    proof {
        lemma2_to64();
        lemma_div_basics_3(p as int);
    }
    while p / unit >= 0x20_0000_0000_0000
        invariant
            p < 0x20_0000_0000_0000_0000_0000,
            0 < unit <= 0x1_0000_0000,
            unit == pow2(k),
            excess_bits(p as nat) == k + excess_bits((p / unit) as nat),
        decreases p / unit,
    {
        proof {
            let q = (p / unit) as int;
            lemma_fundamental_div_mod(p as int, unit as int);
            lemma_mod_bound(p as int, unit as int);
            assert(unit < 0x1_0000_0000) by (nonlinear_arith)
                requires
                    unit * q <= p,
                    p < 0x20_0000_0000_0000_0000_0000,
                    q >= 0x20_0000_0000_0000,
                    unit > 0,
            ;
            if k >= 32 {
                lemma_pow2_at_least(32, k);
            }
            lemma_pow2_at_least(k, 31);
            lemma2_to64();
            lemma_div_denominator(p as int, unit as int, 2);
            lemma_pow2_unfold(k + 1);
            k = k + 1;
        }
        unit = unit * 2;
    }
    let q: u128 = p / unit;
    let r: u128 = p % unit;
    proof {
        assert(excess_bits(p as nat) == k);
        assert((q + 1) * unit <= 0x20_0000_0000_0000 * 0x1_0000_0000) by (nonlinear_arith)
            requires
                q + 1 <= 0x20_0000_0000_0000,
                0 < unit <= 0x1_0000_0000,
        ;
        assert(0 <= q * unit <= (q + 1) * unit) by (nonlinear_arith)
            requires
                unit > 0,
                q >= 0,
        ;
    }
    if 2 * r < unit || (2 * r == unit && q % 2 == 0) {
        q * unit
    } else {
        (q + 1) * unit
    }
}

/// Divides by a power of two.
fn shift_down(x: u128, s: u32) -> (r: u128)
    ensures
        r == x as nat / pow2(s as nat),
        r <= x,
{
    let mut r: u128 = x;
    let mut i: u32 = s;
    proof {
        lemma_pow2_pos(s as nat);
    }
    while i > 0 && r > 0
        invariant
            i <= s,
            r <= x,
            r as nat / pow2(i as nat) == x as nat / pow2(s as nat),
        decreases i,
    {
        proof {
            lemma_pow2_unfold(i as nat);
            lemma_pow2_pos((i - 1) as nat);
            lemma_div_denominator(r as int, 2, pow2((i - 1) as nat) as int);
        }
        r = r / 2;
        i = i - 1;
    }
    proof {
        lemma_pow2_pos(i as nat);
        if r == 0 {
            lemma_div_basics_1(pow2(i as nat) as int);
        } else {
            lemma2_to64();
            lemma_div_basics_3(r as int);
        }
    }
    r
}

/// Multiplies by a power of two, stopping at `u32::MAX`.
fn shift_up(x: u128, s: u32) -> (r: u32)
    requires
        x <= 0x20_0000_0000_0000_0000_0000,
    ensures
        r == if x as nat * pow2(s as nat) > u32::MAX {
            u32::MAX as nat
        } else {
            x as nat * pow2(s as nat)
        },
{
    if x == 0 {
        proof {
            lemma_mul_basics_1(pow2(s as nat) as int);
        }
        return 0;
    }
    let mut r: u128 = x;
    let mut i: u32 = s;
    while i > 0 && r <= u32::MAX as u128
        invariant
            i <= s,
            0 < r <= 0x20_0000_0000_0000_0000_0000,
            r as nat * pow2(i as nat) == x as nat * pow2(s as nat),
        decreases i,
    {
        proof {
            lemma_pow2_unfold(i as nat);
            lemma_mul_is_associative(r as int, 2, pow2((i - 1) as nat) as int);
        }
        r = r * 2;
        i = i - 1;
    }
    proof {
        lemma_pow2_pos(i as nat);
        lemma2_to64();
        assert(r as nat * pow2(i as nat) >= r) by (nonlinear_arith)
            requires
                pow2(i as nat) >= 1,
        ;
        if i == 0 {
            lemma_mul_basics_3(r as int);
        }
    }
    if r > u32::MAX as u128 {
        u32::MAX
    } else {
        r as u32
    }
}

/// The product `a * b * 2^e` in 64-bit binary floating point, converted to `u32`.
pub(crate) fn truncate_product(a: u32, b: u64, e: i32) -> (r: u32)
    requires
        b < 0x20_0000_0000_0000,
        -1000 <= e <= 1000,
    ensures
        r == truncated((a * b) as nat, e as int),
{
    proof {
        assert(0 <= a * b < 0x20_0000_0000_0000_0000_0000) by (nonlinear_arith)
            requires
                0 <= a < 0x1_0000_0000,
                0 <= b < 0x20_0000_0000_0000,
        ;
    }
    let x = round_nearest(a as u128 * b as u128);
    if e >= 0 {
        shift_up(x, e as u32)
    } else {
        let whole = shift_down(x, (-e) as u32);
        if whole > u32::MAX as u128 {
            u32::MAX
        } else {
            whole as u32
        }
    }
}

/// Scales the size `m * 2^e`.
pub fn scale_size(m: u32, e: i32, scale: Binary32) -> (r: u32)
    requires
        -400 <= e <= 400,
    ensures
        r == scaled(m as nat, e as int, scale),
{
    let (negative, field, significand, exponent) = scale.parts();
    if negative || m == 0 {
        0
    } else if field == 0xFF {
        if scale.bits % 0x80_0000 == 0 {
            u32::MAX
        } else {
            0
        }
    } else {
        truncate_product(m, significand as u64, e + exponent)
    }
}

} // verus!
