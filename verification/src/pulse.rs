//! From the evaluated rotation to the pulse-width word.
//!
//! A rotation `v`, in percent, lies on the line
//! `v / 100 * FULL_SWING + MIN_PULSE`, which runs from `MIN_PULSE` at 0
//! percent to `MIN_PULSE + FULL_SWING` at 100 percent. The line is
//! evaluated in binary64 arithmetic, each operation rounded, and that
//! arithmetic is not held here: the caller evaluates the line and hands in
//! the bit pattern of the result. This module takes the step from that
//! pattern to the word: the value rounded toward zero and held to the
//! 16-bit register.
//!
//! Rotations below 0 or above 100 percent are not held to the nominal
//! range of pulses. They follow the same line, which leaves the pulses
//! that the servo is built for, and the word stops only at the ends of the
//! register, at 0 and at 65535.

use crate::number::{
    decode_binary64, exponent_field, fraction_field, lemma_denominator_positive, sign_bit, Number, HIDDEN_BIT,
};
use vstd::arithmetic::power2::{lemma2_to64, lemma2_to64_rest, lemma_pow2_strictly_increases, lemma_pow2_unfold, pow2};
use vstd::prelude::*;

verus! {

/// Pulse-width word at the lower rotation extreme (0 percent).
pub const MIN_PULSE: u16 = 836;

/// Width of the pulse range between the two rotation extremes.
pub const FULL_SWING: u16 = 828;

/// `x` held to the range of a 16-bit register.
pub open spec fn saturate(x: int) -> int {
    if x < 0 {
        0
    } else if x > 0xffff {
        0xffff
    } else {
        x
    }
}

/// The number `x` rounded toward zero.
pub open spec fn truncate(x: Number) -> int {
    if x.numerator() >= 0 {
        x.numerator() / x.denominator()
    } else {
        -((-x.numerator()) / x.denominator())
    }
}

/// The word for the number `x`: `x` rounded toward zero and held to 16
/// bits.
pub open spec fn word_of(x: Number) -> int {
    saturate(truncate(x))
}

/// The pulse-width word for the evaluated line value with the binary64
/// pattern `line`: the value rounded toward zero and held to 16 bits; 0
/// for NaN and for the negative infinity, 65535 for the positive infinity.
///
/// A finite pattern stands for `significand * 2^(field - 1075)`. Below
/// field 1023 the value is under 1, above field 1038 it is `2^16` or
/// more; between them each field is one power of two by which the
/// significand is divided.
pub open spec fn pulse_of(line: u64) -> int {
    let field = exponent_field(line);
    let significand = fraction_field(line) + 0x10_0000_0000_0000;
    if field == 0x7ff {
        if fraction_field(line) == 0 && !sign_bit(line) {
            0xffff
        } else {
            0
        }
    } else if sign_bit(line) || field < 1023 {
        0
    } else if field == 1023 {
        significand / 0x10000000000000
    } else if field == 1024 {
        significand / 0x8000000000000
    } else if field == 1025 {
        significand / 0x4000000000000
    } else if field == 1026 {
        significand / 0x2000000000000
    } else if field == 1027 {
        significand / 0x1000000000000
    } else if field == 1028 {
        significand / 0x800000000000
    } else if field == 1029 {
        significand / 0x400000000000
    } else if field == 1030 {
        significand / 0x200000000000
    } else if field == 1031 {
        significand / 0x100000000000
    } else if field == 1032 {
        significand / 0x80000000000
    } else if field == 1033 {
        significand / 0x40000000000
    } else if field == 1034 {
        significand / 0x20000000000
    } else if field == 1035 {
        significand / 0x10000000000
    } else if field == 1036 {
        significand / 0x8000000000
    } else if field == 1037 {
        significand / 0x4000000000
    } else if field == 1038 {
        significand / 0x2000000000
    } else {
        0xffff
    }
}

/// The word of a pattern is the word of the number that the pattern
/// stands for: `pulse_of` rounds the decoded value toward zero and holds
/// it to 16 bits.
pub proof fn lemma_pulse_is_truncation(line: u64)
    requires
        decode_binary64(line) is Some,
    ensures
        pulse_of(line) == word_of(decode_binary64(line)->Some_0),
{
    let x = decode_binary64(line)->Some_0;
    let field = exponent_field(line);
    let (n, d) = (x.numerator(), x.denominator());
    lemma_denominator_positive(x);
    lemma2_to64();
    lemma2_to64_rest();
    if let Number::Binary { negative, mantissa, exponent } = x {
        if exponent >= 0 {
            let scale = pow2(exponent as nat);
            lemma_pow2_monotonic(0, exponent as nat);
            assert(mantissa * scale >= mantissa) by (nonlinear_arith)
                requires
                    mantissa >= 0,
                    scale >= 1,
            ;
        }
        if negative {
            if n < 0 {
                lemma_quotient_nonnegative(-n, d);
            } else {
                lemma_quotient_between(n, d, 0);
            }
        } else if field < 1023 {
            lemma_pow2_monotonic(53, (-exponent) as nat);
            lemma_quotient_between(n, d, 0);
        } else if field > 1038 {
            if exponent < 0 {
                lemma_pow2_monotonic((-exponent) as nat, 36);
                assert((0x10000 * d) * d <= n * d) by (nonlinear_arith)
                    requires
                        0 < d <= 0x10_0000_0000,
                        n >= 0x10_0000_0000_0000,
                ;
                lemma_floor_monotonic(0x10000 * d, d, n, d);
                lemma_quotient_between(0x10000 * d, d, 0x10000);
            }
        } else {
            assert(n / d < 0x10000) by {
                assert(n < 0x10000 * d);
                assert(n * d <= (0x10000 * d - 1) * d) by (nonlinear_arith)
                    requires
                        n <= 0x10000 * d - 1,
                        d > 0,
                ;
                lemma_floor_monotonic(n, d, 0x10000 * d - 1, d);
                lemma_quotient_between(0x10000 * d - 1, d, 0xffff);
            }
            lemma_quotient_nonnegative(n, d);
        }
    }
}

/// The pulse-width word for the evaluated line value with the binary64
/// pattern `line`.
pub fn pulse_width(line: u64) -> (word: u16)
    ensures
        word == pulse_of(line),
{
    match Number::from_binary64_bits(line) {
        Some(x) => {
            proof {
                lemma_pulse_is_truncation(line);
            }
            number_word(&x)
        },
        None => {
            if line % HIDDEN_BIT == 0 && line < 0x8000_0000_0000_0000 {
                0xffff
            } else {
                0
            }
        },
    }
}

/// The word for the number `x`.
pub fn number_word(x: &Number) -> (word: u16)
    ensures
        word == word_of(*x),
{
    match *x {
        Number::Unsigned(u) => {
            if u > 0xffff {
                0xffff
            } else {
                u as u16
            }
        },
        Number::Signed(i) => {
            if i < 0 {
                0
            } else if i > 0xffff {
                0xffff
            } else {
                i as u16
            }
        },
        Number::Binary { negative, mantissa, exponent } => {
            proof {
                lemma_denominator_positive(*x);
            }
            if negative || mantissa == 0 {
                proof {
                    let (n, d) = (x.numerator(), x.denominator());
                    if exponent >= 0 {
                        let scale = pow2(exponent as nat);
                        assert(mantissa * scale >= 0) by (nonlinear_arith)
                            requires
                                mantissa >= 0,
                                scale >= 0,
                        ;
                        assert(mantissa == 0 ==> mantissa * scale == 0) by (nonlinear_arith);
                    }
                    if n >= 0 {
                        assert(n == 0);
                        lemma_quotient_between(n, d, 0);
                    } else {
                        lemma_quotient_nonnegative(-n, d);
                    }
                }
                0
            } else if exponent >= 16 {
                proof {
                    lemma2_to64();
                    lemma_pow2_monotonic(16, exponent as nat);
                    let scale = pow2(exponent as nat);
                    assert(mantissa * scale >= 0x10000) by (nonlinear_arith)
                        requires
                            mantissa >= 1,
                            scale >= 0x10000,
                    ;
                }
                0xffff
            } else if exponent >= 0 {
                let scale: u128 = power_of_two(exponent as u16);
                proof {
                    lemma2_to64();
                    lemma_pow2_monotonic(exponent as nat, 16);
                    assert(mantissa * scale < 0x1_0000_0000_0000_0000_0000) by (nonlinear_arith)
                        requires
                            mantissa < 0x1_0000_0000_0000_0000,
                            scale <= 0x10000,
                    ;
                }
                let whole: u128 = (mantissa as u128) * scale;
                if whole > 0xffff {
                    0xffff
                } else {
                    whole as u16
                }
            } else if exponent < -64 {
                proof {
                    lemma2_to64();
                    lemma_pow2_monotonic(64, (-exponent) as nat);
                    lemma_quotient_between(mantissa as int, x.denominator(), 0);
                }
                0
            } else {
                let den: u128 = power_of_two((-exponent) as u16);
                let whole: u128 = (mantissa as u128) / den;
                if whole > 0xffff {
                    0xffff
                } else {
                    whole as u16
                }
            }
        },
    }
}

/// `2^64`, the largest power that `power_of_two` gives.
const MAX_POWER: u128 = 0x1_0000_0000_0000_0000;

/// `2^k` for `k <= 64`.
fn power_of_two(k: u16) -> (p: u128)
    requires
        k <= 64,
    ensures
        p == pow2(k as nat),
        1 <= p <= MAX_POWER,
{
    let mut p: u128 = 1;
    let mut j: u16 = 0;
    proof {
        lemma2_to64();
    }
    while j < k
        invariant
            j <= k <= 64,
            p == pow2(j as nat),
            1 <= p,
            pow2(64) == MAX_POWER,
        decreases k - j,
    {
        proof {
            lemma_pow2_unfold((j + 1) as nat);
            lemma_pow2_monotonic((j + 1) as nat, 64);
        }
        p = p * 2;
        j = j + 1;
    }
    proof {
        lemma_pow2_monotonic(k as nat, 64);
    }
    p
}

/// The pulse never falls when the evaluated value rises: for finite
/// patterns `a` and `b` whose values are in order, so are their pulses.
pub proof fn lemma_pulse_monotonic(a: u64, b: u64)
    requires
        decode_binary64(a) is Some,
        decode_binary64(b) is Some,
        decode_binary64(a)->Some_0.le(decode_binary64(b)->Some_0),
    ensures
        pulse_of(a) <= pulse_of(b),
{
    lemma_pulse_is_truncation(a);
    lemma_pulse_is_truncation(b);
    lemma_word_monotonic(decode_binary64(a)->Some_0, decode_binary64(b)->Some_0);
}

/// The word never falls when the evaluated value rises: `a <= b` as
/// rational numbers gives `word_of(a) <= word_of(b)`.
pub proof fn lemma_word_monotonic(a: Number, b: Number)
    requires
        a.le(b),
    ensures
        word_of(a) <= word_of(b),
{
    lemma_denominator_positive(a);
    lemma_denominator_positive(b);
    let (na, da) = (a.numerator(), a.denominator());
    let (nb, db) = (b.numerator(), b.denominator());
    if na < 0 {
        lemma_quotient_nonnegative(-na, da);
        if nb >= 0 {
            lemma_quotient_nonnegative(nb, db);
        } else {
            lemma_quotient_nonnegative(-nb, db);
        }
    } else {
        assert(nb >= 0) by (nonlinear_arith)
            requires
                na * db <= nb * da,
                na >= 0,
                da > 0,
                db > 0,
        ;
        lemma_floor_monotonic(na, da, nb, db);
    }
}

/// An evaluated value between `MIN_PULSE` and `MIN_PULSE + FULL_SWING`,
/// where the line lies for rotations between 0 and 100 percent, is
/// written as a word between the same two, with no saturation.
pub proof fn lemma_word_nominal(x: Number)
    requires
        MIN_PULSE * x.denominator() <= x.numerator() <= (MIN_PULSE + FULL_SWING) * x.denominator(),
    ensures
        word_of(x) == x.numerator() / x.denominator(),
        MIN_PULSE <= word_of(x) <= MIN_PULSE + FULL_SWING,
{
    lemma_denominator_positive(x);
    let (n, d) = (x.numerator(), x.denominator());
    assert(836 * d <= n <= 1664 * d);
    assert(n >= 0) by (nonlinear_arith)
        requires
            d > 0,
            836 * d <= n,
    ;
    assert((836 * d) * d <= n * d && n * d <= (1664 * d) * d) by (nonlinear_arith)
        requires
            d > 0,
            836 * d <= n <= 1664 * d,
    ;
    lemma_floor_monotonic(836 * d, d, n, d);
    lemma_floor_monotonic(n, d, 1664 * d, d);
    lemma_quotient_between(836 * d, d, 836);
    lemma_quotient_between(1664 * d, d, 1664);
}

proof fn lemma_quotient_nonnegative(n: int, d: int)
    by (nonlinear_arith)
    requires
        n >= 0,
        d > 0,
    ensures
        n / d >= 0,
{
}

proof fn lemma_quotient_between(n: int, d: int, q: int)
    by (nonlinear_arith)
    requires
        d > 0,
        q * d <= n < (q + 1) * d,
    ensures
        n / d == q,
{
}

proof fn lemma_floor_monotonic(n1: int, d1: int, n2: int, d2: int)
    by (nonlinear_arith)
    requires
        d1 > 0,
        d2 > 0,
        n1 * d2 <= n2 * d1,
    ensures
        n1 / d1 <= n2 / d2,
{
    let q1 = n1 / d1;
    let q2 = n2 / d2;
    assert(q1 * d1 <= n1 < (q1 + 1) * d1);
    assert(q2 * d2 <= n2 < (q2 + 1) * d2);
    if q1 > q2 {
        assert(q1 * d2 >= (q2 + 1) * d2);
        assert((q1 * d2) * d1 > n2 * d1);
        assert((q1 * d1) * d2 <= n1 * d2);
        assert((q1 * d2) * d1 == (q1 * d1) * d2);
    }
}

proof fn lemma_pow2_monotonic(a: nat, b: nat)
    requires
        a <= b,
    ensures
        pow2(a) <= pow2(b),
{
    if a < b {
        lemma_pow2_strictly_increases(a, b);
    }
}

} // verus!
