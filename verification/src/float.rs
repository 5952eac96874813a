//! IEEE 754 binary64 (and binary32) numbers carried as bit patterns.
//!
//! Datapack JSON uses double-precision numbers (chances, ranges, number
//! providers) and, for cooking experience, single-precision ones. The library
//! keeps them as their exact bit patterns and classifies and orders them by
//! the IEEE 754 rules stated here.

use vstd::prelude::*;

verus! {

/// The sign bit of a binary64 pattern.
pub open spec fn spec_sign(bits: u64) -> bool {
    (bits >> 63u64) == 1u64
}

/// The biased exponent field of a binary64 pattern.
pub open spec fn spec_exponent(bits: u64) -> u64 {
    (bits >> 52u64) & 0x7ffu64
}

/// The fraction field of a binary64 pattern.
pub open spec fn spec_fraction(bits: u64) -> u64 {
    bits & 0xf_ffff_ffff_ffffu64
}

/// The magnitude bits (everything but the sign).
pub open spec fn spec_magnitude(bits: u64) -> u64 {
    bits & 0x7fff_ffff_ffff_ffffu64
}

/// Neither infinite nor NaN.
pub open spec fn spec_is_finite(bits: u64) -> bool {
    spec_exponent(bits) != 0x7ffu64
}

/// Not a number.
pub open spec fn spec_is_nan(bits: u64) -> bool {
    spec_exponent(bits) == 0x7ffu64 && spec_fraction(bits) != 0
}

/// The position of a non-NaN value on the number line: magnitudes grow with
/// their bit patterns, the sign negates, and both zeros sit at 0.
pub open spec fn spec_order_key(bits: u64) -> int {
    if spec_sign(bits) {
        -(spec_magnitude(bits) as int)
    } else {
        spec_magnitude(bits) as int
    }
}

/// IEEE `a < b` (false whenever either side is NaN).
pub open spec fn spec_lt(a: u64, b: u64) -> bool {
    !spec_is_nan(a) && !spec_is_nan(b) && spec_order_key(a) < spec_order_key(b)
}

/// IEEE `a <= b` (false whenever either side is NaN).
pub open spec fn spec_le(a: u64, b: u64) -> bool {
    !spec_is_nan(a) && !spec_is_nan(b) && spec_order_key(a) <= spec_order_key(b)
}

/// The bit pattern of `0.0`.
pub open spec fn spec_zero_bits() -> u64 {
    0u64
}

/// The bit pattern of `1.0`.
pub open spec fn spec_one_bits() -> u64 {
    0x3ff0_0000_0000_0000u64
}

/// `2^e`.
pub open spec fn spec_pow2(e: nat) -> nat
    decreases e,
{
    if e == 0 {
        1
    } else {
        2 * spec_pow2((e - 1) as nat)
    }
}

/// The exponent of the highest set bit of `m` (`m >= 1`).
pub open spec fn spec_high_bit(m: nat) -> nat
    decreases m,
{
    if m < 2 {
        0
    } else {
        1 + spec_high_bit(m / 2)
    }
}

/// The binary64 encoding of an integer of magnitude below `2^53` (exact):
/// sign bit, biased exponent `1023 + e` for the highest set bit `e`, and the
/// remaining bits of the magnitude left-aligned in the 52-bit fraction.
pub open spec fn spec_bits_of_int(n: int) -> u64 {
    if n == 0 {
        0
    } else {
        let m: nat = if n < 0 {
            (-n) as nat
        } else {
            n as nat
        };
        let e = spec_high_bit(m);
        let sign: int = if n < 0 {
            0x8000_0000_0000_0000
        } else {
            0
        };
        (sign + (1023 + e) * 0x10_0000_0000_0000 + (m - spec_pow2(e)) * spec_pow2(
            (52 - e) as nat,
        )) as u64
    }
}

/// `2^52`.
pub proof fn lemma_pow2_52()
    ensures
        spec_pow2(52) == 0x10_0000_0000_0000,
{
    reveal_with_fuel(spec_pow2, 53);
}

/// A magnitude between `2^e` and `2^(e+1)` has its highest bit at `e`.
pub proof fn lemma_high_bit(m: nat, e: nat)
    requires
        spec_pow2(e) <= m < 2 * spec_pow2(e),
    ensures
        spec_high_bit(m) == e,
    decreases e,
{
    if e > 0 {
        assert(spec_pow2(e) == 2 * spec_pow2((e - 1) as nat));
        lemma_high_bit(m / 2, (e - 1) as nat);
    }
}

/// A binary64 number held as its IEEE 754 bit pattern.
#[derive(Debug, Clone, Copy, PartialEq, Eq, Hash)]
pub struct F64Bits {
    pub bits: u64,
}

impl F64Bits {
    /// The number with the given bit pattern (`f64::from_bits`).
    pub fn from_bits(bits: u64) -> (r: Self)
        ensures
            r.bits == bits,
    {
        F64Bits { bits }
    }

    /// The exact binary64 value of a 32-bit integer (`n as f64`).
    pub fn from_i32(n: i32) -> (r: Self)
        ensures
            r.bits == spec_bits_of_int(n as int),
    {
        if n == 0 {
            return F64Bits { bits: 0 };
        }
        let m: u64 = if n < 0 {
            ((-(n as i64)) as u64)
        } else {
            n as u64
        };
        let mut p: u64 = 1;
        let mut e: u64 = 0;
        let mut scale: u64 = 0x10_0000_0000_0000;
        proof {
            lemma_pow2_52();
        }
        while p * 2 <= m
            invariant
                1 <= m <= 0x8000_0000,
                e <= 52,
                p == spec_pow2(e as nat),
                scale == spec_pow2((52 - e) as nat),
                p <= m,
                p * scale == 0x10_0000_0000_0000,
            decreases 52 - e,
        {
            if e == 52 {
                assert(scale == 1);
                assert(p == 0x10_0000_0000_0000) by (nonlinear_arith)
                    requires
                        scale == 1,
                        p * scale == 0x10_0000_0000_0000,
                ;
                assert(false);
            }
            assert(spec_pow2((52 - e) as nat) == 2 * spec_pow2((52 - e - 1) as nat));
            let ghost old_scale = scale;
            p = p * 2;
            scale = scale / 2;
            e = e + 1;
            assert(p * scale == 0x10_0000_0000_0000) by (nonlinear_arith)
                requires
                    p == 2 * (p / 2),
                    old_scale == 2 * scale,
                    (p / 2) * old_scale == 0x10_0000_0000_0000,
            ;
        }
        proof {
            lemma_high_bit(m as nat, e as nat);
        }
        assert((m - p) * scale < 0x10_0000_0000_0000) by (nonlinear_arith)
            requires
                m < 2 * p,
                p * scale == 0x10_0000_0000_0000,
                p <= m,
        ;
        let frac: u64 = (m - p) * scale;
        let sign: u64 = if n < 0 {
            0x8000_0000_0000_0000
        } else {
            0
        };
        F64Bits { bits: sign + (1023 + e) * 0x10_0000_0000_0000 + frac }
    }

    /// `0.0`.
    pub fn zero() -> (r: Self)
        ensures
            r.bits == spec_zero_bits(),
    {
        F64Bits { bits: 0 }
    }

    /// `1.0`.
    pub fn one() -> (r: Self)
        ensures
            r.bits == spec_one_bits(),
    {
        F64Bits { bits: 0x3ff0_0000_0000_0000 }
    }

    /// Neither infinite nor NaN.
    pub fn is_finite(&self) -> (r: bool)
        ensures
            r == spec_is_finite(self.bits),
    {
        ((self.bits >> 52u64) & 0x7ffu64) != 0x7ffu64
    }

    /// Not a number.
    pub fn is_nan(&self) -> (r: bool)
        ensures
            r == spec_is_nan(self.bits),
    {
        ((self.bits >> 52u64) & 0x7ffu64) == 0x7ffu64 && (self.bits & 0xf_ffff_ffff_ffffu64) != 0
    }

    fn order_key(&self) -> (r: i64)
        ensures
            r as int == spec_order_key(self.bits),
    {
        let b = self.bits;
        let m = b & 0x7fff_ffff_ffff_ffffu64;
        assert(m <= 0x7fff_ffff_ffff_ffffu64) by (bit_vector)
            requires
                m == b & 0x7fff_ffff_ffff_ffffu64,
        ;
        let k = m as i64;
        if (self.bits >> 63u64) == 1u64 {
            -k
        } else {
            k
        }
    }

    /// IEEE `self < other`.
    pub fn lt(&self, other: &F64Bits) -> (r: bool)
        ensures
            r == spec_lt(self.bits, other.bits),
    {
        !self.is_nan() && !other.is_nan() && self.order_key() < other.order_key()
    }

    /// IEEE `self <= other`.
    pub fn le(&self, other: &F64Bits) -> (r: bool)
        ensures
            r == spec_le(self.bits, other.bits),
    {
        !self.is_nan() && !other.is_nan() && self.order_key() <= other.order_key()
    }
}


/// A binary32 pattern is neither infinite nor NaN: its exponent field is not all ones.
pub open spec fn spec_f32_is_finite(bits: u32) -> bool {
    (bits >> 23u32) & 0xffu32 != 0xffu32
}

/// A binary32 number held as its IEEE 754 bit pattern.
#[derive(Debug, Clone, Copy, PartialEq, Eq, Hash)]
pub struct F32Bits {
    pub bits: u32,
}

impl F32Bits {
    /// The number with the given bit pattern (`f32::from_bits`).
    pub fn from_bits(bits: u32) -> (r: Self)
        ensures
            r.bits == bits,
    {
        F32Bits { bits }
    }

    /// `0.0`.
    pub fn zero() -> (r: Self)
        ensures
            r.bits == 0,
    {
        F32Bits { bits: 0 }
    }

    /// Neither infinite nor NaN.
    pub fn is_finite(&self) -> (r: bool)
        ensures
            r == spec_f32_is_finite(self.bits),
    {
        ((self.bits >> 23u32) & 0xffu32) != 0xffu32
    }
}

} // verus!
