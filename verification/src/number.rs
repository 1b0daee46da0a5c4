//! Numbers as they arrive in a property write: integers and binary fractions.

use vstd::arithmetic::power2::{lemma_pow2_pos, pow2};
use vstd::prelude::*;

verus! {

/// A number of a logical value. Every value of this type stands for one
/// rational number, `numerator() / denominator()`.
#[derive(Clone, Copy, Debug, PartialEq, Eq)]
pub enum Number {
    /// A non-negative integer.
    Unsigned(u64),
    /// An integer that may be negative.
    Signed(i64),
    /// The binary fraction `mantissa * 2^exponent`, negated if `negative`.
    Binary { negative: bool, mantissa: u64, exponent: i16 },
}

impl Number {
    /// The numerator of the rational number that `self` stands for.
    pub open spec fn numerator(self) -> int {
        match self {
            Number::Unsigned(u) => u as int,
            Number::Signed(i) => i as int,
            Number::Binary { negative, mantissa, exponent } => {
                let magnitude = if exponent >= 0 {
                    mantissa * pow2(exponent as nat)
                } else {
                    mantissa as int
                };
                if negative {
                    -magnitude
                } else {
                    magnitude
                }
            },
        }
    }

    /// The denominator of the rational number that `self` stands for,
    /// always positive.
    pub open spec fn denominator(self) -> int {
        match self {
            Number::Binary { exponent, .. } if exponent < 0 => pow2((-exponent) as nat) as int,
            _ => 1,
        }
    }

    /// `self <= other` as rational numbers.
    pub open spec fn le(self, other: Number) -> bool {
        self.numerator() * other.denominator() <= other.numerator() * self.denominator()
    }
}

/// The denominator of every number is positive.
pub proof fn lemma_denominator_positive(v: Number)
    ensures
        v.denominator() > 0,
{
    if let Number::Binary { exponent, .. } = v {
        if exponent < 0 {
            lemma_pow2_pos((-exponent) as nat);
        }
    }
}

/// Any two numbers compare, one way or the other.
pub proof fn lemma_le_total(a: Number, b: Number)
    ensures
        a.le(b) || b.le(a),
{
}

/// The comparison is transitive, as that of the rational numbers is.
pub proof fn lemma_le_transitive(a: Number, b: Number, c: Number)
    requires
        a.le(b),
        b.le(c),
    ensures
        a.le(c),
{
    lemma_denominator_positive(a);
    lemma_denominator_positive(b);
    lemma_denominator_positive(c);
    let (na, da) = (a.numerator(), a.denominator());
    let (nb, db) = (b.numerator(), b.denominator());
    let (nc, dc) = (c.numerator(), c.denominator());
    assert(na * dc <= nc * da) by (nonlinear_arith)
        requires
            na * db <= nb * da,
            nb * dc <= nc * db,
            da > 0,
            db > 0,
            dc > 0,
    {
        assert((na * db) * dc <= (nb * da) * dc);
        assert((nb * dc) * da <= (nc * db) * da);
        assert((na * dc) * db <= (nc * da) * db);
    }
}

/// The implicit leading bit of a normal binary64 significand, `2^52`.
pub const HIDDEN_BIT: u64 = 0x10_0000_0000_0000;

/// The exponent field of the binary64 patterns that stand for no finite
/// number (infinities and NaN).
pub const EXPONENT_SPECIAL: u64 = 0x7ff;

/// The sign of a binary64 pattern, its highest bit.
pub open spec fn sign_bit(bits: u64) -> bool {
    bits >= 0x8000_0000_0000_0000
}

/// The exponent field of a binary64 pattern, the 11 bits below the sign.
pub open spec fn exponent_field(bits: u64) -> u64 {
    (bits / 0x10_0000_0000_0000) % 0x800
}

/// The fraction field of a binary64 pattern, its lowest 52 bits.
pub open spec fn fraction_field(bits: u64) -> u64 {
    bits % 0x10_0000_0000_0000
}

/// The number that a binary64 pattern stands for: `None` for infinities
/// and NaN; the fraction scaled by `2^-1074` where the exponent field is 0;
/// otherwise the fraction with its hidden bit, scaled by `2^(field - 1075)`.
pub open spec fn decode_binary64(bits: u64) -> Option<Number> {
    let field = exponent_field(bits);
    let fraction = fraction_field(bits);
    if field == 0x7ff {
        None
    } else if field == 0 {
        Some(Number::Binary { negative: sign_bit(bits), mantissa: fraction, exponent: (-1074) as i16 })
    } else {
        Some(
            Number::Binary {
                negative: sign_bit(bits),
                mantissa: (fraction + 0x10_0000_0000_0000) as u64,
                exponent: (field - 1075) as i16,
            },
        )
    }
}

impl Number {
    /// Reads a number from its binary64 bit pattern.
    pub fn from_binary64_bits(bits: u64) -> (r: Option<Number>)
        ensures
            r == decode_binary64(bits),
    {
        let negative: bool = (bits >> 63) == 1;
        let field: u64 = (bits >> 52) & 0x7ff;
        let fraction: u64 = bits & 0xf_ffff_ffff_ffff;
        assert(negative == (bits >= 0x8000_0000_0000_0000) && field == (bits / 0x10_0000_0000_0000) % 0x800
            && fraction == bits % 0x10_0000_0000_0000) by (bit_vector)
            requires
                negative == ((bits >> 63) == 1),
                field == (bits >> 52) & 0x7ff,
                fraction == bits & 0xf_ffff_ffff_ffff,
        ;
        if field == EXPONENT_SPECIAL {
            None
        } else if field == 0 {
            Some(Number::Binary { negative, mantissa: fraction, exponent: -1074 })
        } else {
            Some(
                Number::Binary {
                    negative,
                    mantissa: fraction + HIDDEN_BIT,
                    exponent: (field as i16) - 1075,
                },
            )
        }
    }

    /// Whether `self` is a binary fraction in the form that a binary64
    /// pattern decodes to.
    pub open spec fn is_binary64(self) -> bool {
        match self {
            Number::Binary { mantissa, exponent, .. } => {
                if mantissa < 0x10_0000_0000_0000 {
                    exponent == -1074
                } else {
                    mantissa < 0x20_0000_0000_0000 && -1074 <= exponent <= 971
                }
            },
            _ => false,
        }
    }

    /// The binary64 bit pattern that decodes to `self`, where there is
    /// one.
    pub fn to_binary64_bits(&self) -> (r: Option<u64>)
        ensures
            r is Some <==> self.is_binary64(),
            r matches Some(bits) ==> decode_binary64(bits) == Some(*self),
            forall|bits: u64| decode_binary64(bits) == Some(*self) ==> r == Some(bits),
    {
        proof {
            assert forall|bits: u64| decode_binary64(bits) == Some(*self) implies self.is_binary64() by {
                lemma_decoded_is_binary64(bits);
            }
        }
        let r = self.encode();
        proof {
            assert forall|bits: u64| decode_binary64(bits) == Some(*self) implies r == Some(bits) by {
                lemma_decode_injective(bits, r->Some_0);
            }
        }
        r
    }

    fn encode(&self) -> (r: Option<u64>)
        ensures
            r is Some <==> self.is_binary64(),
            r matches Some(bits) ==> decode_binary64(bits) == Some(*self),
    {
        match *self {
            Number::Binary { negative, mantissa, exponent } => {
                let sign: u64 = if negative {
                    0x8000_0000_0000_0000
                } else {
                    0
                };
                if mantissa < HIDDEN_BIT {
                    if exponent == -1074 {
                        Some(sign + mantissa)
                    } else {
                        None
                    }
                } else if mantissa < 2 * HIDDEN_BIT && -1074 <= exponent && exponent <= 971 {
                    let field: u64 = (exponent + 1075) as u64;
                    let fraction: u64 = mantissa - HIDDEN_BIT;
                    Some(sign + field * HIDDEN_BIT + fraction)
                } else {
                    None
                }
            },
            _ => None,
        }
    }
}

/// What a binary64 pattern decodes to has a binary64 pattern.
pub proof fn lemma_decoded_is_binary64(bits: u64)
    requires
        decode_binary64(bits) is Some,
    ensures
        decode_binary64(bits)->Some_0.is_binary64(),
{
}

/// Every finite binary64 pattern is read back from the number it decodes
/// to: no two patterns decode to the same number.
pub proof fn lemma_decode_injective(a: u64, b: u64)
    requires
        decode_binary64(a) is Some,
        decode_binary64(a) == decode_binary64(b),
    ensures
        a == b,
{
}

} // verus!
