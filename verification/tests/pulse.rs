use camera_mount::number::Number;
use camera_mount::pulse::{number_word, pulse_width, FULL_SWING, MIN_PULSE};

/// The line at `v` percent, evaluated in binary64.
fn line(v: f64) -> u64 {
    (v / 100.0 * FULL_SWING as f64 + MIN_PULSE as f64).to_bits()
}

fn pulse_at(v: f64) -> u16 {
    pulse_width(line(v))
}

#[test]
fn pulse_at_zero_percent_is_836() {
    assert_eq!(pulse_at(0.0), 836);
    assert_eq!(pulse_at(-0.0), 836);
    assert_eq!(MIN_PULSE, 836);
}

#[test]
fn pulse_at_hundred_percent_is_1664() {
    assert_eq!(pulse_at(100.0), 1664);
    assert_eq!(MIN_PULSE + FULL_SWING, 1664);
}

#[test]
fn pulse_at_midpoint_is_1250() {
    assert_eq!(pulse_at(50.0), 1250);
}

#[test]
fn pulse_is_rounded_toward_zero() {
    // 7 percent: 7 * 8.28 + 836 = 893.96
    assert_eq!(pulse_at(7.0), 893);
    // 1 percent: 844.28
    assert_eq!(pulse_at(1.0), 844);
    // 10 percent: 918.8
    assert_eq!(pulse_at(10.0), 918);
    // 12.5 percent: 939.5
    assert_eq!(pulse_at(12.5), 939);
    // 50.5 percent: 1254.14
    assert_eq!(pulse_at(50.5), 1254);
    // 99.99 percent: 1663.917...
    assert_eq!(pulse_at(99.99), 1663);
}

#[test]
fn pulse_of_quarter_steps_is_exact() {
    assert_eq!(pulse_at(25.0), 1043);
    assert_eq!(pulse_at(75.0), 1457);
}

#[test]
fn pulse_next_to_a_quarter_step_follows_the_binary64_evaluation() {
    // at the largest binary64 below 25 percent the product rounds up to 207,
    // and the evaluated line is 1043
    let below = f64::from_bits(25.0f64.to_bits() - 1);
    assert!(below < 25.0);
    assert_eq!(line(below), 1043.0f64.to_bits());
    assert_eq!(pulse_at(below), 1043);
    let above = f64::from_bits(25.0f64.to_bits() + 1);
    assert_eq!(pulse_at(above), 1043);
}

#[test]
fn pulse_just_below_zero_percent_is_836() {
    // so small a step below zero is lost when 836 is added
    assert_eq!(pulse_at(-1.0e-300), 836);
    assert_eq!(pulse_at(-5.0e-324), 836);
    assert_eq!(pulse_at(-0.5), 831);
}

#[test]
fn pulse_of_every_integer_percent_is_the_truncated_line() {
    for v in 0u64..=100 {
        let expected = ((828 * v + 83600) / 100) as u16;
        assert_eq!(pulse_at(v as f64), expected, "at {}", v);
    }
}

#[test]
fn pulse_of_hundredths_is_the_cast_of_the_evaluated_line() {
    for k in -30000i32..=900000 {
        let v = k as f64 / 100.0;
        let expected = (v / 100.0 * 828.0 + 836.0) as u16;
        assert_eq!(pulse_at(v), expected, "at {}", v);
    }
}

#[test]
fn pulse_width_is_the_cast_of_any_binary64() {
    let samples = [
        0.0f64,
        -0.0,
        0.5,
        0.999_999_999,
        1.0,
        1.5,
        835.999_999,
        836.0,
        1250.0,
        1663.999,
        1664.0,
        65534.5,
        65535.0,
        65535.5,
        65536.0,
        1.0e10,
        1.0e300,
        f64::MAX,
        -0.5,
        -1.0,
        -836.0,
        -1.0e300,
        f64::MIN,
        f64::MIN_POSITIVE,
        5.0e-324,
        f64::INFINITY,
        f64::NEG_INFINITY,
        f64::NAN,
    ];
    for x in samples {
        assert_eq!(pulse_width(x.to_bits()), x as u16, "at {}", x);
    }
    let mut bits: u64 = 0x3fe0_0000_0000_0000;
    while bits < 0x4100_0000_0000_0000 {
        let x = f64::from_bits(bits);
        assert_eq!(pulse_width(bits), x as u16, "at {}", x);
        assert_eq!(pulse_width(bits - 1), f64::from_bits(bits - 1) as u16);
        bits += 0x0000_0123_4567_89ab;
    }
}

#[test]
fn pulse_width_drops_the_fraction_of_the_evaluated_value() {
    // the largest binary64 below 1043, and 1043 itself
    assert_eq!(pulse_width(1043.0f64.to_bits() - 1), 1042);
    assert_eq!(pulse_width(1043.0f64.to_bits()), 1043);
    assert_eq!(pulse_width(1250.0f64.to_bits()), 1250);
    assert_eq!(pulse_width(918.8f64.to_bits()), 918);
    assert_eq!(pulse_width(0.999f64.to_bits()), 0);
}

#[test]
fn pulse_never_falls_as_the_value_rises() {
    let mut last: u16 = 0;
    for k in -2000i64..=12000 {
        let word = pulse_at(k as f64);
        assert!(last <= word, "at {}", k);
        last = word;
    }
    let mut last: u16 = 0;
    for k in 0u32..=40000 {
        let word = pulse_at(k as f64 / 400.0);
        assert!(last <= word, "at {}", k);
        last = word;
    }
}

#[test]
fn pulse_stays_in_the_nominal_range_between_0_and_100() {
    for k in 0u32..=1000 {
        let word = pulse_at(k as f64 / 10.0);
        assert!(836 <= word && word <= 1664, "at {}", k);
    }
}

#[test]
fn pulse_above_the_range_is_not_clamped_to_1664() {
    assert_eq!(pulse_at(101.0), 1672);
    assert_eq!(pulse_at(150.0), 2078);
    assert_eq!(pulse_at(200.0), 2492);
    assert_eq!(pulse_at(150.5), 2082);
}

#[test]
fn pulse_below_the_range_is_not_clamped_to_836() {
    assert_eq!(pulse_at(-1.0), 827);
    assert_eq!(pulse_at(-100.0), 8);
    assert_eq!(pulse_at(-50.25), 419);
}

#[test]
fn pulse_saturates_at_the_register_width() {
    assert_eq!(pulse_at(7813.0), 65527);
    assert_eq!(pulse_at(7814.0), 65535);
    assert_eq!(pulse_at(7815.0), 65535);
    assert_eq!(pulse_at(u64::MAX as f64), 65535);
    assert_eq!(pulse_at(1.0e300), 65535);
    // the product leaves the binary64 range: the line is infinite
    assert_eq!(pulse_at(f64::MAX), 65535);
}

#[test]
fn pulse_saturates_at_zero() {
    // -100.97 percent is where the line crosses zero
    assert_eq!(pulse_at(-101.0), 0);
    assert_eq!(pulse_at(-102.0), 0);
    assert_eq!(pulse_at(i64::MIN as f64), 0);
    assert_eq!(pulse_at(-1.0e300), 0);
    assert_eq!(pulse_at(f64::MIN), 0);
}

#[test]
fn pulse_of_an_evaluation_that_is_no_number_is_zero() {
    assert_eq!(pulse_width(f64::NAN.to_bits()), 0);
    assert_eq!(pulse_width(0x7ff0_0000_0000_0001), 0);
    assert_eq!(pulse_width(0xfff8_0000_0000_0000), 0);
    assert_eq!(pulse_width(f64::INFINITY.to_bits()), 65535);
    assert_eq!(pulse_width(f64::NEG_INFINITY.to_bits()), 0);
}

#[test]
fn number_word_is_the_number_rounded_toward_zero() {
    assert_eq!(number_word(&Number::Unsigned(0)), 0);
    assert_eq!(number_word(&Number::Unsigned(1250)), 1250);
    assert_eq!(number_word(&Number::Unsigned(65535)), 65535);
    assert_eq!(number_word(&Number::Unsigned(65536)), 65535);
    assert_eq!(number_word(&Number::Unsigned(u64::MAX)), 65535);
    assert_eq!(number_word(&Number::Signed(836)), 836);
    assert_eq!(number_word(&Number::Signed(-1)), 0);
    assert_eq!(number_word(&Number::Signed(i64::MIN)), 0);
    assert_eq!(number_word(&Number::Signed(i64::MAX)), 65535);
    // 1877 / 2 = 938.5
    assert_eq!(number_word(&Number::Binary { negative: false, mantissa: 1877, exponent: -1 }), 938);
    assert_eq!(number_word(&Number::Binary { negative: true, mantissa: 1877, exponent: -1 }), 0);
    assert_eq!(number_word(&Number::Binary { negative: false, mantissa: 3, exponent: 4 }), 48);
    assert_eq!(number_word(&Number::Binary { negative: false, mantissa: 1, exponent: 15 }), 32768);
    assert_eq!(number_word(&Number::Binary { negative: false, mantissa: 1, exponent: 16 }), 65535);
    assert_eq!(number_word(&Number::Binary { negative: false, mantissa: 1, exponent: i16::MAX }), 65535);
    assert_eq!(number_word(&Number::Binary { negative: false, mantissa: 0, exponent: i16::MAX }), 0);
    assert_eq!(number_word(&Number::Binary { negative: false, mantissa: u64::MAX, exponent: -64 }), 0);
    assert_eq!(number_word(&Number::Binary { negative: false, mantissa: u64::MAX, exponent: -63 }), 1);
    assert_eq!(number_word(&Number::Binary { negative: false, mantissa: u64::MAX, exponent: -48 }), 65535);
    assert_eq!(number_word(&Number::Binary { negative: false, mantissa: u64::MAX, exponent: -49 }), 32767);
    assert_eq!(number_word(&Number::Binary { negative: false, mantissa: u64::MAX, exponent: i16::MIN }), 0);
}
