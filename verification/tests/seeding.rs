use simon_game::seed::derive_seed;

#[test]
fn seed_matches_wrapping_formula() {
    for noise in [0u64, 1, 2, 3, 5, 10, 15, 16, 17, 100, 255, 1023] {
        let expected = noise
            .wrapping_pow(noise as u32)
            .wrapping_sub(noise)
            .wrapping_add(1);
        assert_eq!(derive_seed(noise), expected);
    }
}

#[test]
fn seed_exact_small_values() {
    // 0^0 - 0 + 1 = 2, 1^1 - 1 + 1 = 1, 2^2 - 2 + 1 = 3, 3^3 - 3 + 1 = 25
    assert_eq!(derive_seed(0), 2);
    assert_eq!(derive_seed(1), 1);
    assert_eq!(derive_seed(2), 3);
    assert_eq!(derive_seed(3), 25);
    assert_eq!(derive_seed(5), 3121);
}

#[test]
fn seed_wraps_for_large_samples() {
    // 16^16 is exactly 2^64, so the power wraps to 0 and the rest wraps back
    assert_eq!(derive_seed(16), u64::MAX - 14);
}
