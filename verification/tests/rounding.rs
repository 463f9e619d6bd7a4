use mac_window::rounding::{to_double, to_single};

#[test]
fn few_digits_are_kept() {
    for value in [0, 1, -1, 16_777_216, -16_777_215, 800 << 32, -(3 << 31)] {
        assert_eq!(to_single(value), value);
        assert_eq!(to_double(value), value);
    }
}

#[test]
fn ties_go_to_the_even_neighbour() {
    assert_eq!(to_single(16_777_217), 16_777_216);
    assert_eq!(to_single(16_777_219), 16_777_220);
    assert_eq!(to_single(-16_777_219), -16_777_220);
    assert_eq!(to_single(33_554_431), 33_554_432);
    assert_eq!(to_double(9_007_199_254_740_993), 9_007_199_254_740_992);
    assert_eq!(to_double(9_007_199_254_740_995), 9_007_199_254_740_996);
}

#[test]
fn numbers_are_rounded_as_floating_point_does() {
    let mut seed: u64 = 1;
    for _ in 0..4000 {
        seed = seed.wrapping_mul(6_364_136_223_846_793_005).wrapping_add(1_442_695_040_888_963_407);
        let value = (seed as i64 >> (seed % 61)) as i128 * 5;
        assert_eq!(to_single(value), value as f32 as i128);
        assert_eq!(to_double(value), value as f64 as i128);
    }
}

#[test]
fn rounding_keeps_the_order() {
    let mut before = (to_single(-40_000_000), to_double(-40_000_000));
    for step in -3999..4000 {
        let value = step * 10_001;
        let after = (to_single(value), to_double(value));
        assert!(before.0 <= after.0 && before.1 <= after.1);
        before = after;
    }
}
