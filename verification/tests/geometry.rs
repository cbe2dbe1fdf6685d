use jp2k::DecodeParams;

#[test]
fn effective_dimension_power_of_two() {
    assert_eq!(DecodeParams::value_for_discard_level(512, 3), 64);
}

#[test]
fn effective_dimension_rounds_up() {
    assert_eq!(DecodeParams::value_for_discard_level(513, 3), 65);
}

#[test]
fn effective_dimension_of_zero_is_zero() {
    assert_eq!(DecodeParams::value_for_discard_level(0, 0), 0);
    assert_eq!(DecodeParams::value_for_discard_level(0, 7), 0);
    assert_eq!(DecodeParams::value_for_discard_level(0, 31), 0);
}

#[test]
fn effective_dimension_identity_at_level_zero() {
    assert_eq!(DecodeParams::value_for_discard_level(1, 0), 1);
    assert_eq!(DecodeParams::value_for_discard_level(1023, 0), 1023);
    assert_eq!(DecodeParams::value_for_discard_level(u32::MAX, 0), u32::MAX);
}

#[test]
fn effective_dimension_small_cases() {
    assert_eq!(DecodeParams::value_for_discard_level(7, 1), 4);
    assert_eq!(DecodeParams::value_for_discard_level(8, 1), 4);
    assert_eq!(DecodeParams::value_for_discard_level(9, 1), 5);
    assert_eq!(DecodeParams::value_for_discard_level(1, 31), 1);
    assert_eq!(DecodeParams::value_for_discard_level(u32::MAX, 31), 2);
}

#[test]
fn one_more_reduction_level_halves_rounded_up() {
    // The dimensions a decode at level d + 1 yields are exactly the ceiling
    // of half the level-d dimensions.
    let dims: [u32; 6] = [1, 2, 511, 512, 513, 1000];
    for u in dims {
        for d in 0u32..5u32 {
            let at_d = DecodeParams::value_for_discard_level(u, d);
            let at_d1 = DecodeParams::value_for_discard_level(u, d + 1);
            assert_eq!(at_d1, at_d / 2 + at_d % 2);
        }
    }
}
