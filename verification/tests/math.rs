use hearton_public::simd::math::isqrt;

#[test]
fn isqrt_of_small_numbers() {
    let expected = [0u64, 1, 1, 1, 2, 2, 2, 2, 2, 3, 3, 3, 3, 3, 3, 3, 4];
    for (x, root) in expected.iter().enumerate() {
        assert_eq!(isqrt(x as u128), *root);
    }
}

#[test]
fn isqrt_rounds_down() {
    assert_eq!(isqrt(99), 9);
    assert_eq!(isqrt(100), 10);
    assert_eq!(isqrt(101), 10);
    assert_eq!(isqrt(1_000_000_000_000), 1_000_000);
    assert_eq!(isqrt(999_999_999_999), 999_999);
}

#[test]
fn isqrt_at_the_ends_of_the_range() {
    assert_eq!(isqrt(u128::MAX), u64::MAX);
    let largest_square = (u64::MAX as u128) * (u64::MAX as u128);
    assert_eq!(isqrt(largest_square), u64::MAX);
    assert_eq!(isqrt(largest_square - 1), u64::MAX - 1);
    assert_eq!(isqrt(1u128 << 126), 1u64 << 63);
    assert_eq!(isqrt((1u128 << 126) - 1), (1u64 << 63) - 1);
}
