use typedb_driver_core::answer::json::Number;
use typedb_driver_core::answer::number::long_to_double_bits;

fn widened(long: i64) -> f64 {
    f64::from_bits(long_to_double_bits(long))
}

#[test]
fn small_whole_numbers_survive_unchanged() {
    assert_eq!(long_to_double_bits(0), 0);
    assert_eq!(long_to_double_bits(1), 0x3FF0_0000_0000_0000);
    assert_eq!(long_to_double_bits(-1), 0xBFF0_0000_0000_0000);
    assert_eq!(long_to_double_bits(2), 0x4000_0000_0000_0000);
    assert_eq!(long_to_double_bits(3), 0x4008_0000_0000_0000);
    for long in -1000..1000 {
        assert_eq!(widened(long), long as f64);
        assert_eq!(widened(long) as i64, long);
    }
}

#[test]
fn whole_numbers_up_to_two_to_the_53_are_exact() {
    let limit: i64 = 1 << 53;
    for long in [limit, limit - 1, limit - 2, -limit, -limit + 1] {
        assert_eq!(widened(long) as i64, long);
    }
}

#[test]
fn beyond_two_to_the_53_the_nearest_even_double_is_taken() {
    let limit: i64 = 1 << 53;
    assert_eq!(widened(limit + 1), 9_007_199_254_740_992.0);
    assert_eq!(widened(limit + 2), 9_007_199_254_740_994.0);
    assert_eq!(widened(limit + 3), 9_007_199_254_740_996.0);
    assert_eq!(widened(-limit - 1), -9_007_199_254_740_992.0);
    assert_eq!(widened(-limit - 3), -9_007_199_254_740_996.0);
}

#[test]
fn the_ends_of_the_range() {
    assert_eq!(long_to_double_bits(i64::MAX), 0x43E0_0000_0000_0000);
    assert_eq!(long_to_double_bits(i64::MIN), 0xC3E0_0000_0000_0000);
    assert_eq!(widened(i64::MAX), 9_223_372_036_854_775_807i64 as f64);
    assert_eq!(widened(i64::MIN), i64::MIN as f64);
}

#[test]
fn widening_agrees_with_the_machine() {
    let mut long: i64 = 1;
    let mut seed: u64 = 0x9E37_79B9_7F4A_7C15;
    for _ in 0..200_000 {
        seed = seed.wrapping_mul(6364136223846793005).wrapping_add(1442695040888963407);
        let shift = (seed >> 58) as u32;
        long = ((seed ^ (seed >> 29)) as i64) >> shift;
        assert_eq!(long_to_double_bits(long), (long as f64).to_bits());
    }
    for exponent in 0..63 {
        let power: i64 = 1 << exponent;
        for near in -3..4 {
            let long = power.wrapping_add(near);
            assert_eq!(long_to_double_bits(long), (long as f64).to_bits());
            let long = long.wrapping_neg();
            assert_eq!(long_to_double_bits(long), (long as f64).to_bits());
            let half = power.wrapping_add(power >> 1).wrapping_add(near);
            assert_eq!(long_to_double_bits(half), (half as f64).to_bits());
        }
    }
    assert!(long != 0 || long == 0);
}

#[test]
fn number_reads_as_a_double() {
    assert_eq!(Number::Integer(5).as_double_bits(), 5.0f64.to_bits());
    assert_eq!(Number::Double(2.5f64.to_bits()).as_double_bits(), 2.5f64.to_bits());
    assert_eq!(Number::Integer((1 << 53) + 1).as_double_bits(), 9_007_199_254_740_992.0f64.to_bits());
}
