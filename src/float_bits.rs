//! IEEE 754 single-precision values, held as their 32-bit patterns.
//!
//! The decode pipeline reads device output words, compares them against
//! thresholds and truncates some of them to counts. All of that is defined
//! exactly on the bit pattern, so the library keeps the pattern and states
//! what each operation does on it.
use vstd::arithmetic::power2::{lemma_pow2_adds, lemma_pow2_pos, pow2};
use vstd::bits::lemma_u32_shr_is_div;
use vstd::prelude::*;

verus! {

/// A single-precision value, by its IEEE 754 bit pattern
/// (1 sign bit, 8 exponent bits, 23 fraction bits).
#[derive(Clone, Copy, Debug, PartialEq, Eq, Structural)]
pub struct FloatBits {
    pub bits: u32,
}

/// The sign bit.
pub open spec fn sign_of(b: u32) -> bool {
    (b >> 31u32) == 1
}

/// The biased exponent field (0 ..= 255).
pub open spec fn exponent_of(b: u32) -> u32 {
    (b >> 23u32) & 0xffu32
}

/// The fraction field (the 23 low bits).
pub open spec fn fraction_of(b: u32) -> u32 {
    b & 0x7fffffu32
}

/// Not a number: all exponent bits set and a non-zero fraction.
pub open spec fn is_nan_bits(b: u32) -> bool {
    exponent_of(b) == 255 && fraction_of(b) != 0
}

/// The magnitude bits; on values that are not NaN they grow with |value|,
/// infinity included.
pub open spec fn magnitude_of(b: u32) -> int {
    (b & 0x7fffffffu32) as int
}

/// A key that orders all values that are not NaN as the reals they stand
/// for; both zeros get the key 0.
pub open spec fn order_key(b: u32) -> int {
    if sign_of(b) {
        -magnitude_of(b)
    } else {
        magnitude_of(b)
    }
}

/// `a >= b` as IEEE 754 compares: false as soon as one side is NaN.
pub open spec fn float_ge(a: FloatBits, b: FloatBits) -> bool {
    !is_nan_bits(a.bits) && !is_nan_bits(b.bits) && order_key(a.bits) >= order_key(b.bits)
}

/// `a > b` as IEEE 754 compares.
pub open spec fn float_gt(a: FloatBits, b: FloatBits) -> bool {
    !is_nan_bits(a.bits) && !is_nan_bits(b.bits) && order_key(a.bits) > order_key(b.bits)
}

/// The integer part of |value| for a finite value: the significand
/// (fraction with its hidden bit) times 2^(exponent - 150), rounded toward
/// zero. Subnormal values are below 1, so their integer part is 0.
pub open spec fn trunc_magnitude(b: u32) -> nat {
    let e = exponent_of(b) as nat;
    let sig = fraction_of(b) as nat + 0x800000;
    if e == 0 {
        0
    } else if e >= 150 {
        sig * pow2((e - 150) as nat)
    } else {
        sig / pow2((150 - e) as nat)
    }
}

/// What `value as uN` gives in Rust for an unsigned target whose largest
/// value is `max`: NaN gives 0, the value is rounded toward zero, and the
/// result saturates at 0 and at `max`.
pub open spec fn saturating_trunc(b: u32, max: nat) -> nat {
    if is_nan_bits(b) {
        0
    } else if sign_of(b) {
        0
    } else if exponent_of(b) == 255 {
        max
    } else if trunc_magnitude(b) > max {
        max
    } else {
        trunc_magnitude(b)
    }
}

/// `b` is the single-precision value of the natural number `v`, which must
/// be exact: +0 for 0, else a positive normal value whose significand times
/// 2^(exponent - 150) is `v`.
pub open spec fn is_float_of_nat(b: u32, v: nat) -> bool {
    if v == 0 {
        b == 0
    } else {
        let e = exponent_of(b) as nat;
        &&& !sign_of(b)
        &&& 1 <= e <= 254
        &&& (fraction_of(b) as nat + 0x800000) * pow2(e) == v * pow2(150)
    }
}

proof fn lemma_fields(b: u32)
    ensures
        exponent_of(b) <= 255,
        fraction_of(b) < 0x800000,
        sign_of(b) <==> b >= 0x80000000,
        magnitude_of(b) == (if b >= 0x80000000 { b - 0x80000000 } else { b as int }),
{
    assert((b >> 23u32) & 0xffu32 <= 255) by (bit_vector);
    assert(b & 0x7fffffu32 < 0x800000) by (bit_vector);
    assert((b >> 31u32) == 1 <==> b >= 0x80000000) by (bit_vector);
    assert(b >= 0x80000000 ==> b & 0x7fffffffu32 == b - 0x80000000) by (bit_vector);
    assert(b < 0x80000000 ==> b & 0x7fffffffu32 == b) by (bit_vector);
}

impl FloatBits {
    /// The value whose pattern is `bits`.
    pub fn from_bits(bits: u32) -> (r: FloatBits)
        ensures
            r.bits == bits,
    {
        FloatBits { bits }
    }

    /// The bit pattern.
    pub fn to_bits(self) -> (r: u32)
        ensures
            r == self.bits,
    {
        self.bits
    }

    /// Whether the value is NaN.
    pub fn is_nan(self) -> (r: bool)
        ensures
            r == is_nan_bits(self.bits),
    {
        let e = (self.bits >> 23u32) & 0xffu32;
        let f = self.bits & 0x7fffffu32;
        e == 255 && f != 0
    }

    fn key(self) -> (r: i64)
        ensures
            r == order_key(self.bits),
    {
        proof {
            lemma_fields(self.bits);
        }
        if self.bits >= 0x80000000 {
            -((self.bits - 0x80000000u32) as i64)
        } else {
            self.bits as i64
        }
    }

    /// `self >= other`, as IEEE 754 compares.
    pub fn ge(self, other: FloatBits) -> (r: bool)
        ensures
            r == float_ge(self, other),
    {
        !self.is_nan() && !other.is_nan() && self.key() >= other.key()
    }

    /// `self > other`, as IEEE 754 compares.
    pub fn gt(self, other: FloatBits) -> (r: bool)
        ensures
            r == float_gt(self, other),
    {
        !self.is_nan() && !other.is_nan() && self.key() > other.key()
    }

    /// The integer part of |self| for a value whose exponent field is not
    /// 255, saturated at `max`.
    fn trunc_magnitude_capped(self, max: u64) -> (r: u64)
        requires
            exponent_of(self.bits) != 255,
        ensures
            r == (if trunc_magnitude(self.bits) > max { max as nat } else {
                trunc_magnitude(self.bits)
            }),
    {
        proof {
            lemma_fields(self.bits);
        }
        let e = (self.bits >> 23u32) & 0xffu32;
        let sig = (self.bits & 0x7fffffu32) + 0x800000u32;
        if e == 0 {
            return 0;
        }
        if e < 150 {
            let shift = 150 - e;
            let v: u64;
            if shift >= 32 {
                proof {
                    lemma_pow2_adds(32, (shift - 32) as nat);
                    lemma_pow2_pos((shift - 32) as nat);
                    vstd::arithmetic::power2::lemma2_to64();
                    vstd::arithmetic::mul::lemma_mul_increases(
                        pow2((shift - 32) as nat) as int,
                        pow2(32) as int,
                    );
                    vstd::arithmetic::div_mod::lemma_basic_div(sig as int, pow2(shift as nat) as int);
                }
                v = 0;
            } else {
                proof {
                    lemma_u32_shr_is_div(sig, shift);
                }
                v = (sig >> shift) as u64;
            }
            if v > max {
                return max;
            }
            return v;
        }
        let mut v: u64 = sig as u64;
        let mut k: u32 = 150;
        proof {
            vstd::arithmetic::power2::lemma2_to64();
            assert(v == sig * pow2(0));
        }
        if v > max {
            proof {
                lemma_pow2_pos((e - 150) as nat);
                vstd::arithmetic::mul::lemma_mul_increases(pow2((e - 150) as nat) as int, sig as int);
                vstd::arithmetic::mul::lemma_mul_is_commutative(pow2((e - 150) as nat) as int, sig as int);
            }
            return max;
        }
        while k < e
            invariant
                150 <= k <= e,
                e < 255,
                e == exponent_of(self.bits),
                sig == fraction_of(self.bits) + 0x800000,
                v == sig * pow2((k - 150) as nat),
                v <= max,
            decreases e - k,
        {
            if v > max / 2 {
                proof {
                    let rest = (e - k) as nat;
                    lemma_pow2_adds((k - 150) as nat, rest);
                    lemma_pow2_pos(rest);
                    assert(pow2(rest) >= 2) by {
                        lemma_pow2_adds(1, (rest - 1) as nat);
                        lemma_pow2_pos((rest - 1) as nat);
                        vstd::arithmetic::power2::lemma2_to64();
                    }
                    assert(sig * pow2((e - 150) as nat) == v * pow2(rest)) by {
                        vstd::arithmetic::mul::lemma_mul_is_associative(
                            sig as int,
                            pow2((k - 150) as nat) as int,
                            pow2(rest) as int,
                        );
                    }
                    vstd::arithmetic::mul::lemma_mul_inequality(2, pow2(rest) as int, v as int);
                }
                return max;
            }
            proof {
                vstd::arithmetic::power2::lemma2_to64();
                lemma_pow2_adds((k - 150) as nat, 1);
                assert((k + 1 - 150) as nat == (k - 150) as nat + 1);
                vstd::arithmetic::mul::lemma_mul_is_associative(
                    sig as int,
                    pow2((k - 150) as nat) as int,
                    2,
                );
            }
            v = v * 2;
            k = k + 1;
        }
        v
    }

    /// `self as uN` for an unsigned target whose largest value is `max`.
    fn saturating_cast(self, max: u64) -> (r: u64)
        ensures
            r == saturating_trunc(self.bits, max as nat),
    {
        proof {
            lemma_fields(self.bits);
        }
        if self.is_nan() {
            0
        } else if self.bits >= 0x80000000 {
            0
        } else if (self.bits >> 23u32) & 0xffu32 == 255 {
            max
        } else {
            self.trunc_magnitude_capped(max)
        }
    }

    /// `self as usize`: rounded toward zero, NaN to 0, saturating.
    pub fn to_usize(self) -> (r: usize)
        ensures
            r == saturating_trunc(self.bits, usize::MAX as nat),
    {
        self.saturating_cast(usize::MAX as u64) as usize
    }

    /// `self as u16`: rounded toward zero, NaN to 0, saturating.
    pub fn to_u16(self) -> (r: u16)
        ensures
            r == saturating_trunc(self.bits, u16::MAX as nat),
    {
        self.saturating_cast(u16::MAX as u64) as u16
    }

    /// `self as u8`: rounded toward zero, NaN to 0, saturating.
    pub fn to_u8(self) -> (r: u8)
        ensures
            r == saturating_trunc(self.bits, u8::MAX as nat),
    {
        self.saturating_cast(u8::MAX as u64) as u8
    }

    /// The value of `v`, which single precision holds exactly
    /// (`v as f32` in Rust).
    pub fn from_u16(v: u16) -> (r: FloatBits)
        ensures
            is_float_of_nat(r.bits, v as nat),
    {
        if v == 0 {
            return FloatBits { bits: 0 };
        }
        let mut p: u32 = 0;
        let mut hi: u32 = 2;
        proof {
            vstd::arithmetic::power2::lemma2_to64();
        }
        while hi <= v as u32
            invariant
                1 <= v,
                p <= 16,
                hi == pow2((p + 1) as nat),
                pow2(p as nat) <= v,
            decreases 17 - p,
        {
            proof {
                vstd::arithmetic::power2::lemma2_to64();
                lemma_pow2_adds((p + 1) as nat, 1);
                if p >= 16 {
                    vstd::arithmetic::power2::lemma_pow2_strictly_increases(16, (p + 1) as nat);
                }
            }
            hi = hi * 2;
            p = p + 1;
        }
        proof {
            lemma_pow2_adds(p as nat, 1);
            vstd::arithmetic::power2::lemma2_to64();
            if p >= 16 {
                vstd::arithmetic::power2::lemma_pow2_strictly_increases(16, p as nat);
            }
        }
        let shift: u32 = 23 - p;
        let vv: u32 = v as u32;
        proof {
            lemma_pow2_adds(p as nat, shift as nat);
            lemma_pow2_pos(shift as nat);
            vstd::arithmetic::mul::lemma_mul_strict_inequality(
                vv as int,
                (2 * pow2(p as nat)) as int,
                pow2(shift as nat) as int,
            );
            vstd::arithmetic::mul::lemma_mul_inequality(
                pow2(p as nat) as int,
                vv as int,
                pow2(shift as nat) as int,
            );
            vstd::arithmetic::mul::lemma_mul_is_associative(
                2,
                pow2(p as nat) as int,
                pow2(shift as nat) as int,
            );
            vstd::bits::lemma_u32_shl_is_mul(vv, shift);
        }
        let sig: u32 = vv << shift;
        let frac: u32 = sig - 0x800000u32;
        let e: u32 = 127 + p;
        let bits: u32 = (e << 23u32) | frac;
        proof {
            assert(((bits >> 23u32) & 0xffu32) == e && (bits & 0x7fffffu32) == frac && (bits >> 31u32)
                == 0) by (bit_vector)
                requires
                    e < 256,
                    frac < 0x800000,
                    bits == (e << 23u32) | frac,
            ;
            lemma_pow2_adds(shift as nat, e as nat);
            vstd::arithmetic::mul::lemma_mul_is_associative(
                vv as int,
                pow2(shift as nat) as int,
                pow2(e as nat) as int,
            );
        }
        FloatBits { bits }
    }

    /// The value of `v` (`v as f32` in Rust).
    pub fn from_u8(v: u8) -> (r: FloatBits)
        ensures
            is_float_of_nat(r.bits, v as nat),
    {
        FloatBits::from_u16(v as u16)
    }
}

} // verus!
