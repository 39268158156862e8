use vstd::prelude::*;
use vstd::arithmetic::power2::{
    pow2, lemma2_to64, lemma2_to64_rest, lemma_pow2_adds, lemma_pow2_pos,
    lemma_pow2_strictly_increases,
};
use vstd::arithmetic::div_mod::{
    lemma_div_by_multiple, lemma_div_denominator, lemma_div_is_ordered, lemma_remainder,
};
use vstd::arithmetic::mul::{lemma_mul_inequality, lemma_mul_is_associative};
use vstd::bits::{lemma_u64_shl_is_mul, lemma_u64_shr_is_div};

verus! {

/// A single-precision (IEEE 754 binary32) number, held by its bit pattern.
///
/// The vault's reward rate is such a number; the library reads it only
/// through the exact, integer-valued operations below.
#[derive(Clone, Copy, Debug, PartialEq, Eq, Structural)]
pub struct Binary32 {
    pub bits: u32,
}

/// Bit pattern of positive infinity.
pub const POSITIVE_INFINITY_BITS: u32 = 0x7f80_0000;

/// Lowest bit pattern with the sign bit set.
pub const SIGN_BIT: u32 = 0x8000_0000;

impl Binary32 {
    /// Positive zero.
    pub fn zero() -> (r: Binary32)
        ensures
            r.bits == 0,
    {
        Binary32 { bits: 0 }
    }

    /// The sign bit is set.
    pub open spec fn negative(self) -> bool {
        self.bits >= SIGN_BIT
    }

    /// The eight exponent bits, as stored.
    pub open spec fn biased_exponent(self) -> int {
        (self.bits as int / 0x80_0000) % 0x100
    }

    /// The 23 fraction bits.
    pub open spec fn fraction(self) -> int {
        self.bits as int % 0x80_0000
    }

    /// The integer significand: the fraction, with the hidden bit for normal numbers.
    pub open spec fn significand(self) -> int {
        if self.biased_exponent() == 0 {
            self.fraction()
        } else {
            self.fraction() + 0x80_0000
        }
    }

    /// For a finite number, its magnitude is `significand * 2^(scale - 150)`.
    pub open spec fn scale(self) -> int {
        if self.biased_exponent() == 0 {
            1
        } else {
            self.biased_exponent()
        }
    }

    /// The number compares greater than zero: it is a positive subnormal,
    /// normal or infinite number (neither a zero, nor negative, nor NaN).
    pub open spec fn positive(self) -> bool {
        0 < self.bits <= POSITIVE_INFINITY_BITS
    }

    /// The number converted to `u64` as Rust's `as` does: rounded toward zero,
    /// saturated at `0` and `u64::MAX`, and NaN mapped to `0`.
    pub open spec fn truncated_u64(self) -> u64 {
        if self.negative() {
            0
        } else if self.biased_exponent() == 0xff {
            if self.fraction() == 0 {
                u64::MAX
            } else {
                0
            }
        } else if self.scale() >= 150 {
            let v = self.significand() * pow2((self.scale() - 150) as nat);
            if v > u64::MAX {
                u64::MAX
            } else {
                v as u64
            }
        } else {
            (self.significand() / (pow2((150 - self.scale()) as nat) as int)) as u64
        }
    }

    /// Whether the number is greater than zero.
    pub fn is_positive(&self) -> (r: bool)
        ensures
            r == self.positive(),
    {
        0 < self.bits && self.bits <= POSITIVE_INFINITY_BITS
    }

    /// The number converted to `u64` as Rust's `as` conversion does.
    pub fn to_u64_saturating(&self) -> (r: u64)
        ensures
            r == self.truncated_u64(),
    {
        if self.bits >= SIGN_BIT {
            return 0;
        }
        let exponent: u32 = self.bits / 0x80_0000;
        let fraction: u32 = self.bits % 0x80_0000;
        assert(exponent == self.biased_exponent());
        if exponent == 0xff {
            if fraction == 0 {
                return u64::MAX;
            } else {
                return 0;
            }
        }
        let significand: u64 = if exponent == 0 {
            fraction as u64
        } else {
            fraction as u64 + 0x80_0000
        };
        let scale: u32 = if exponent == 0 {
            1
        } else {
            exponent
        };
        assert(significand == self.significand() && scale == self.scale());
        if scale >= 150 {
            let shift: u32 = scale - 150;
            proof {
                lemma2_to64();
                lemma2_to64_rest();
            }
            if shift > 40 {
                proof {
                    if shift > 41 {
                        lemma_pow2_strictly_increases(41, shift as nat);
                    }
                    let p = pow2(shift as nat);
                    assert(significand * p >= 0x80_0000 * 0x200_0000_0000) by (nonlinear_arith)
                        requires
                            significand >= 0x80_0000,
                            p >= 0x200_0000_0000,
                    ;
                }
                u64::MAX
            } else {
                proof {
                    if shift < 40 {
                        lemma_pow2_strictly_increases(shift as nat, 40);
                    }
                    let p = pow2(shift as nat);
                    assert(significand * p < 0x100_0000 * 0x100_0000_0000) by (nonlinear_arith)
                        requires
                            significand < 0x100_0000,
                            0 < p <= 0x100_0000_0000,
                    ;
                    lemma_u64_shl_is_mul(significand, shift as u64);
                }
                significand << (shift as u64)
            }
        } else {
            let shift: u32 = 150 - scale;
            proof {
                lemma2_to64();
            }
            if shift >= 24 {
                proof {
                    if shift > 24 {
                        lemma_pow2_strictly_increases(24, shift as nat);
                    }
                    assert((significand as int) / (pow2(shift as nat) as int) == 0) by (nonlinear_arith)
                        requires
                            significand < pow2(shift as nat),
                    ;
                }
                0
            } else {
                proof {
                    lemma_u64_shr_is_div(significand, shift as u64);
                }
                significand >> (shift as u64)
            }
        }
    }
}

impl Binary32 {
    /// For a finite number, its magnitude times `2^150`: `significand * 2^scale`.
    pub open spec fn scaled_magnitude(self) -> int {
        self.significand() * pow2(self.scale() as nat)
    }
}

/// For a finite non-negative number, the truncation is the floor of its
/// magnitude, saturated at `u64::MAX`.
proof fn lemma_truncated_is_floor(x: Binary32)
    requires
        !x.negative(),
        x.biased_exponent() != 0xff,
    ensures
        x.truncated_u64() == (if x.scaled_magnitude() / (pow2(150) as int) > u64::MAX {
            u64::MAX as int
        } else {
            x.scaled_magnitude() / (pow2(150) as int)
        }),
{
    let sig = x.significand();
    let sc = x.scale();
    lemma_pow2_pos(150);
    lemma_pow2_pos(sc as nat);
    if sc >= 150 {
        let k = (sc - 150) as nat;
        lemma_pow2_adds(k, 150);
        assert(k + 150 == sc as nat);
        lemma_pow2_pos(k);
        lemma_mul_is_associative(sig, pow2(k) as int, pow2(150) as int);
        assert(sig * pow2(k) >= 0) by (nonlinear_arith)
            requires
                sig >= 0,
                pow2(k) > 0,
        ;
        lemma_div_by_multiple(sig * pow2(k), pow2(150) as int);
    } else {
        let k = (150 - sc) as nat;
        lemma_pow2_adds(sc as nat, k);
        assert(sc as nat + k == 150);
        lemma_pow2_pos(k);
        lemma_div_by_multiple(sig, pow2(sc as nat) as int);
        assert(sig * pow2(sc as nat) >= 0) by (nonlinear_arith)
            requires
                sig >= 0,
                pow2(sc as nat) > 0,
        ;
        lemma_div_denominator(sig * pow2(sc as nat), pow2(sc as nat) as int, pow2(k) as int);
        assert(sig / (pow2(k) as int) >= 0) by (nonlinear_arith)
            requires
                sig >= 0,
                pow2(k) > 0,
        ;
        assert(sig / (pow2(k) as int) <= sig) by (nonlinear_arith)
            requires
                sig >= 0,
                pow2(k) > 0,
        ;
    }
}

/// Among finite non-negative numbers, a larger bit pattern has a larger magnitude.
proof fn lemma_magnitude_follows_bits(a: Binary32, b: Binary32)
    requires
        a.bits <= b.bits < POSITIVE_INFINITY_BITS,
    ensures
        a.scaled_magnitude() <= b.scaled_magnitude(),
{
    let ea = a.biased_exponent();
    let eb = b.biased_exponent();
    lemma_div_is_ordered(a.bits as int, b.bits as int, 0x80_0000);
    assert(ea <= eb);
    lemma2_to64();
    lemma_pow2_pos(a.scale() as nat);
    lemma_pow2_pos(b.scale() as nat);
    if a.scale() == b.scale() {
        assert(a.significand() <= b.significand());
        lemma_mul_inequality(a.significand(), b.significand(), pow2(a.scale() as nat) as int);
    } else {
        let sa = a.scale() as nat;
        let sb = b.scale() as nat;
        assert(sa < sb);
        assert(a.significand() < 0x100_0000);
        assert(b.significand() >= 0x80_0000);
        lemma_pow2_adds(sa, 24);
        lemma_pow2_adds(sb, 23);
        if sa + 24 < sb + 23 {
            lemma_pow2_strictly_increases(sa + 24, sb + 23);
        }
        lemma_mul_inequality(a.significand(), 0x100_0000, pow2(sa) as int);
        lemma_mul_inequality(0x80_0000, b.significand(), pow2(sb) as int);
        assert(pow2(sa) * pow2(24) == 0x100_0000 * pow2(sa)) by (nonlinear_arith)
            requires
                pow2(24) == 0x100_0000,
        ;
        assert(pow2(sb) * pow2(23) == 0x80_0000 * pow2(sb)) by (nonlinear_arith)
            requires
                pow2(23) == 0x80_0000,
        ;
    }
}

/// Truncation keeps the order of positive numbers: where one positive bit
/// pattern is at most another, so is its truncation. (For positive numbers,
/// the order of the bit patterns is the order of the values.)
pub proof fn lemma_truncation_monotone(a: Binary32, b: Binary32)
    requires
        a.positive(),
        b.positive(),
        a.bits <= b.bits,
    ensures
        a.truncated_u64() <= b.truncated_u64(),
{
    if b.bits == POSITIVE_INFINITY_BITS {
        assert(b.biased_exponent() == 0xff && b.fraction() == 0);
    } else {
        lemma_div_is_ordered(a.bits as int, 0x7f80_0000, 0x80_0000);
        lemma_div_is_ordered(b.bits as int, 0x7f80_0000, 0x80_0000);
        lemma_truncated_is_floor(a);
        lemma_truncated_is_floor(b);
        lemma_magnitude_follows_bits(a, b);
        lemma_pow2_pos(150);
        lemma_div_is_ordered(a.scaled_magnitude(), b.scaled_magnitude(), pow2(150) as int);
    }
}

/// A number compares greater than zero exactly when its sign bit is clear,
/// it is not a zero, and it is not a NaN (all exponent bits set with a
/// non-zero fraction).
pub proof fn lemma_positive_iff(x: Binary32)
    ensures
        x.positive() <==> {
            &&& !x.negative()
            &&& x.bits != 0
            &&& !(x.biased_exponent() == 0xff && x.fraction() != 0)
        },
{
    if !x.negative() {
        if x.bits <= 0x7f80_0000 {
            lemma_div_is_ordered(x.bits as int, 0x7f80_0000, 0x80_0000);
        } else {
            lemma_div_is_ordered(0x7f80_0000, x.bits as int, 0x80_0000);
        }
    }
}

/// For a finite number with its sign bit clear, the truncation is the
/// largest integer not above its value `significand * 2^(scale - 150)`,
/// saturated at `u64::MAX`.
pub proof fn lemma_truncation_is_floor_of_value(x: Binary32)
    requires
        !x.negative(),
        x.biased_exponent() != 0xff,
    ensures
        ({
            let p = pow2(150) as int;
            let t = x.truncated_u64() as int;
            &&& x.scaled_magnitude() >= (u64::MAX as int + 1) * p ==> t == u64::MAX
            &&& x.scaled_magnitude() < (u64::MAX as int + 1) * p ==> t * p <= x.scaled_magnitude()
                < (t + 1) * p
        }),
{
    let p = pow2(150) as int;
    let m = x.scaled_magnitude();
    lemma_truncated_is_floor(x);
    lemma_pow2_pos(150);
    lemma_pow2_pos(x.scale() as nat);
    assert(m >= 0) by (nonlinear_arith)
        requires
            m == x.significand() * pow2(x.scale() as nat),
            x.significand() >= 0,
            pow2(x.scale() as nat) > 0,
    ;
    lemma_remainder(m, p);
    let q = m / p;
    if m >= (u64::MAX as int + 1) * p {
        lemma_div_by_multiple(u64::MAX as int + 1, p);
        lemma_div_is_ordered((u64::MAX as int + 1) * p, m, p);
    } else {
        assert(q <= u64::MAX) by (nonlinear_arith)
            requires
                m < (u64::MAX as int + 1) * p,
                0 <= m - q * p,
                p > 0,
        ;
        assert((q + 1) * p == q * p + p) by (nonlinear_arith);
    }
}

} // verus!
