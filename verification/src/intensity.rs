//! Fractional intensities, and how they are cut down to whole channel values.
//!
//! The document store keeps each channel of the light as a binary
//! floating-point number of 32 bits (IEEE 754, single precision). This module
//! holds such a number by its bits and works on them with whole-number
//! arithmetic only:
//!
//! * bit 31 is the sign;
//! * bits 30 to 23 are the exponent field;
//! * bits 22 to 0 are the fraction field.
//!
//! A number whose exponent field is 255 is infinite when its fraction field
//! is zero and not a number otherwise. Every other pattern stands for
//! `significand * 2^scale`, negated when the sign is set.

use vstd::prelude::*;
use vstd::arithmetic::power2::{pow2, lemma2_to64, lemma_pow2_pos, lemma_pow2_strictly_increases};
use vstd::arithmetic::div_mod::lemma_basic_div;
use vstd::bits::{lemma_u32_shl_is_mul, lemma_u32_shr_is_div};

verus! {

/// A fractional intensity, held by the 32 bits of its floating-point form.
#[derive(Clone, Copy, Debug, PartialEq, Eq, Structural)]
pub struct Intensity {
    pub bits: u32,
}

impl Intensity {
    /// Whether the sign is set. Zero, infinities and values that are not
    /// numbers carry a sign too.
    pub open spec fn is_negative(self) -> bool {
        self.bits >= 0x8000_0000
    }

    /// The exponent field, from 0 to 255.
    pub open spec fn exponent_field(self) -> int {
        (self.bits as int / 0x80_0000) % 0x100
    }

    /// The fraction field, below 2^23.
    pub open spec fn fraction_field(self) -> int {
        self.bits as int % 0x80_0000
    }

    /// Whether the bits stand for no number at all.
    pub open spec fn is_nan(self) -> bool {
        self.exponent_field() == 255 && self.fraction_field() != 0
    }

    /// Whether the bits stand for an infinity.
    pub open spec fn is_infinite(self) -> bool {
        self.exponent_field() == 255 && self.fraction_field() == 0
    }

    /// The significand of a finite value, as a whole number. Values with
    /// exponent field zero have no hidden leading bit.
    pub open spec fn significand(self) -> int {
        if self.exponent_field() == 0 {
            self.fraction_field()
        } else {
            0x80_0000 + self.fraction_field()
        }
    }

    /// The power of two that the significand of a finite value is scaled by.
    pub open spec fn scale(self) -> int {
        if self.exponent_field() == 0 {
            -149
        } else {
            self.exponent_field() - 150
        }
    }

    /// The whole part of the magnitude of a finite value: the largest whole
    /// number that is not above `significand * 2^scale`.
    pub open spec fn whole_magnitude(self) -> int {
        if self.scale() >= 0 {
            self.significand() * pow2(self.scale() as nat)
        } else {
            self.significand() / (pow2((-self.scale()) as nat) as int)
        }
    }

    /// The channel value of the intensity: the value with its fraction cut
    /// off, towards zero, and brought into the range of a channel. An
    /// infinity counts as beyond that range on its side; what is not a number
    /// gives zero.
    pub open spec fn truncated(self) -> int {
        if self.is_nan() {
            0
        } else if self.is_infinite() {
            if self.is_negative() {
                i32::MIN as int
            } else {
                i32::MAX as int
            }
        } else if self.is_negative() {
            if self.whole_magnitude() >= 0x8000_0000 {
                i32::MIN as int
            } else {
                -self.whole_magnitude()
            }
        } else {
            if self.whole_magnitude() > i32::MAX {
                i32::MAX as int
            } else {
                self.whole_magnitude()
            }
        }
    }

    /// Wraps the bits of a floating-point number.
    pub fn from_bits(bits: u32) -> (intensity: Intensity)
        ensures
            intensity.bits == bits,
    {
        Intensity { bits }
    }

    /// Cuts the intensity down to a channel value.
    pub fn truncate(self) -> (value: i32)
        ensures
            value == self.truncated(),
    {
        let bits = self.bits;
        let negative = bits >= 0x8000_0000;
        let exponent = (bits >> 23) & 0xff;
        let fraction = bits & 0x7f_ffff;
        assert(exponent == (bits / 0x80_0000) % 0x100 && fraction == bits % 0x80_0000) by (bit_vector)
            requires
                exponent == (bits >> 23) & 0xff,
                fraction == bits & 0x7f_ffff,
        ;
        if exponent == 255 {
            if fraction != 0 {
                0
            } else if negative {
                i32::MIN
            } else {
                i32::MAX
            }
        } else if exponent < 127 {
            proof {
                self.lemma_below_one();
            }
            0
        } else if exponent >= 158 {
            proof {
                self.lemma_beyond_range();
            }
            if negative {
                i32::MIN
            } else {
                i32::MAX
            }
        } else {
            let significand: u32 = 0x80_0000 + fraction;
            let magnitude: u32 = if exponent >= 150 {
                let shift: u32 = exponent - 150;
                proof {
                    lemma2_to64();
                    assert(significand * pow2(shift as nat) <= 0x7fff_ffff) by {
                        assert(pow2(shift as nat) <= 0x80) by {
                            if shift < 7 {
                                lemma_pow2_strictly_increases(shift as nat, 7);
                            }
                        }
                        assert(significand * pow2(shift as nat) <= 0xff_ffff * 0x80) by (nonlinear_arith)
                            requires
                                significand <= 0xff_ffff,
                                pow2(shift as nat) <= 0x80,
                        ;
                    }
                    lemma_u32_shl_is_mul(significand, shift);
                }
                significand << shift
            } else {
                let shift: u32 = 150 - exponent;
                proof {
                    lemma_u32_shr_is_div(significand, shift);
                }
                significand >> shift
            };
            assert(magnitude <= 0x7fff_ffff) by {
                if exponent < 150 {
                    assert(magnitude <= significand) by {
                        lemma_pow2_pos((150 - exponent) as nat);
                        vstd::arithmetic::div_mod::lemma_div_is_ordered_by_denominator(
                            significand as int,
                            1,
                            pow2((150 - exponent) as nat) as int,
                        );
                    }
                }
            }
            if negative {
                -(magnitude as i32)
            } else {
                magnitude as i32
            }
        }
    }

    /// The whole part of a magnitude is not negative, and the channel value
    /// of every intensity is a channel value.
    pub proof fn lemma_truncated_fits(self)
        ensures
            0 <= self.whole_magnitude(),
            i32::MIN <= self.truncated() <= i32::MAX,
    {
        let s = self.significand();
        if self.scale() >= 0 {
            let p = pow2(self.scale() as nat) as int;
            assert(0 <= s * p) by (nonlinear_arith)
                requires
                    0 <= s,
                    0 <= p,
            ;
        } else {
            let p = pow2((-self.scale()) as nat) as int;
            lemma_pow2_pos((-self.scale()) as nat);
            assert(0 <= s / p) by (nonlinear_arith)
                requires
                    0 <= s,
                    0 < p,
            ;
        }
    }

    /// A finite value with an exponent field below 127 lies strictly between
    /// -1 and 1: its whole part is zero.
    pub proof fn lemma_below_one(self)
        requires
            self.exponent_field() < 127,
        ensures
            self.whole_magnitude() == 0,
            self.truncated() == 0,
    {
        let k = (-self.scale()) as nat;
        assert(24 <= k);
        lemma2_to64();
        if 24 < k {
            lemma_pow2_strictly_increases(24, k);
        }
        assert(self.significand() < pow2(k));
        lemma_basic_div(self.significand(), pow2(k) as int);
    }

    /// A finite value with an exponent field of 158 or more has a magnitude
    /// of 2^31 or more: it lies beyond every channel value, but for -2^31
    /// itself, which is the least of them.
    pub proof fn lemma_beyond_range(self)
        requires
            158 <= self.exponent_field() < 255,
        ensures
            self.whole_magnitude() >= 0x8000_0000,
            self.truncated() == if self.is_negative() {
                i32::MIN as int
            } else {
                i32::MAX as int
            },
    {
        let k = self.scale() as nat;
        lemma2_to64();
        if 8 < k {
            lemma_pow2_strictly_increases(8, k);
        }
        let s = self.significand();
        let p = pow2(k) as int;
        assert(s * p >= 0x8000_0000) by (nonlinear_arith)
            requires
                s >= 0x80_0000,
                p >= 0x100,
        ;
    }
}

} // verus!
