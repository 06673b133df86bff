use durable::number::{nearest_double, Number, EXACT_LIMIT, ROUNDING_LIMIT};

fn number(f: f64) -> Number {
    Number { bits: f.to_bits() }
}

fn samples() -> Vec<f64> {
    let mut all = vec![
        0.0,
        -0.0,
        0.5,
        0.999_999_999_999_999_9,
        1.0,
        1.5,
        -1.0,
        -1.999,
        3.0,
        4_294_967_295.0,
        4_294_967_296.5,
        9_007_199_254_740_991.0,
        9_007_199_254_740_992.0,
        9_223_372_036_854_774_784.0,
        9_223_372_036_854_775_808.0,
        -9_223_372_036_854_775_808.0,
        -9_223_372_036_854_777_856.0,
        18_446_744_073_709_549_568.0,
        18_446_744_073_709_551_616.0,
        1.0e300,
        -1.0e300,
        f64::MAX,
        f64::MIN,
        f64::MIN_POSITIVE,
        f64::from_bits(1),
        f64::INFINITY,
        f64::NEG_INFINITY,
        f64::NAN,
        -f64::NAN,
        1_700_000_000_123.0,
    ];
    let mut power = 1.0f64;
    for _ in 0..80 {
        all.push(power);
        all.push(-power);
        all.push(power * 1.75 + 0.25);
        all.push(-power * 1.3);
        power *= 2.0;
    }
    all
}

#[test]
fn numbers_become_usize_like_a_cast() {
    for f in samples() {
        assert_eq!(number(f).as_usize(), f as usize, "{}", f);
    }
}

#[test]
fn numbers_become_i64_like_a_cast() {
    for f in samples() {
        assert_eq!(number(f).as_i64(), f as i64, "{}", f);
    }
}

#[test]
fn any_bits_become_integers_like_a_cast() {
    let mut bits: u64 = 0x9e37_79b9_7f4a_7c15;
    for _ in 0..20_000 {
        bits = bits.wrapping_mul(6_364_136_223_846_793_005).wrapping_add(1_442_695_040_888_963_407);
        let spread = bits ^ (bits >> 29);
        // Half of the numbers get an exponent near the limits of the integers.
        let exponent = 1023 + (spread % 70);
        let near = (spread & 0x800f_ffff_ffff_ffff) | (exponent << 52);
        for candidate in [spread, near] {
            let f = f64::from_bits(candidate);
            assert_eq!(Number { bits: candidate }.as_usize(), f as usize);
            assert_eq!(Number { bits: candidate }.as_i64(), f as i64);
        }
    }
}

#[test]
fn exact_values_of_the_conversions() {
    assert_eq!(number(3.99).as_usize(), 3);
    assert_eq!(number(-3.99).as_usize(), 0);
    assert_eq!(number(-3.99).as_i64(), -3);
    assert_eq!(number(f64::NAN).as_i64(), 0);
    assert_eq!(number(1.0e30).as_i64(), i64::MAX);
    assert_eq!(number(-1.0e30).as_i64(), i64::MIN);
}

#[test]
fn integers_round_like_a_cast() {
    let mut values: Vec<i128> = vec![
        0,
        1,
        -1,
        i64::MAX as i128,
        i64::MIN as i128,
        u64::MAX as i128,
        u64::MAX as i128 * 1000 + 999,
        EXACT_LIMIT as i128,
        EXACT_LIMIT as i128 + 1,
        EXACT_LIMIT as i128 + 3,
        ROUNDING_LIMIT,
        -ROUNDING_LIMIT,
        ROUNDING_LIMIT - 1,
    ];
    let mut seed: u64 = 88_172_645_463_325_252;
    for i in 0..20_000u32 {
        seed ^= seed << 13;
        seed ^= seed >> 7;
        seed ^= seed << 17;
        let wide = ((seed as i128) << (i % 36)) + (seed as i128 % 7) - 3;
        values.push(wide);
        values.push(-wide);
        values.push(seed as i64 as i128);
        // Halfway between two neighbours, and next to it.
        let half = ((seed >> 11) as i128 | 1 << 52) * 4 + 2;
        values.push(half);
        values.push(half + 1);
        values.push(half - 1);
    }
    for value in values {
        assert_eq!(nearest_double(value), (value as f64) as i128, "{}", value);
    }
}

#[test]
fn law_small_integers_are_exact() {
    assert_eq!(nearest_double(9_007_199_254_740_992), 9_007_199_254_740_992);
    assert_eq!(nearest_double(-9_007_199_254_740_991), -9_007_199_254_740_991);
}

#[test]
fn law_conversion_is_nearest() {
    // Ties go to the even neighbour.
    assert_eq!(nearest_double(9_007_199_254_740_993), 9_007_199_254_740_992);
    assert_eq!(nearest_double(9_007_199_254_740_995), 9_007_199_254_740_996);
    assert_eq!(nearest_double(i64::MAX as i128), 9_223_372_036_854_775_808);
}

#[test]
fn a_sum_of_numbers_is_the_rounded_sum() {
    let mut seed: u64 = 12_345_678_910_111_213;
    for _ in 0..20_000 {
        seed ^= seed << 13;
        seed ^= seed >> 7;
        seed ^= seed << 17;
        let now = seed >> (seed % 20);
        let offset = (seed.wrapping_mul(0x2545_f491_4f6c_dd1d)) as i64;
        let sum = now as f64 + offset as f64;
        let rounded = nearest_double(nearest_double(now as i128) + nearest_double(offset as i128));
        assert_eq!(rounded, sum as i128);
    }
}
