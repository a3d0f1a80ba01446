use hearton_public::simd::types::{SimdI128x4, SimdI32x4, SimdI64x4};
use hearton_public::simd::SimdPath;

const PATHS: [SimdPath; 6] = [
    SimdPath::AVX512,
    SimdPath::AVX2,
    SimdPath::SSE42,
    SimdPath::NEON,
    SimdPath::Wasm128,
    SimdPath::Scalar,
];

#[test]
fn i32_lanes_new_and_splat() {
    assert_eq!(SimdI32x4::new(1, -2, 3, -4).0, [1, -2, 3, -4]);
    assert_eq!(SimdI32x4::splat(7).0, [7, 7, 7, 7]);
    assert_eq!(SimdI32x4::new(5, 5, 5, 5), SimdI32x4::splat(5));
}

#[test]
fn i64_lanes_new_and_splat() {
    assert_eq!(SimdI64x4::new(1, -2, 3, -4).0, [1, -2, 3, -4]);
    assert_eq!(SimdI64x4::splat(-9).0, [-9, -9, -9, -9]);
}

#[test]
fn i128_lanes_new_and_splat() {
    assert_eq!(SimdI128x4::new(1, -2, 3, -4).0, [1, -2, 3, -4]);
    assert_eq!(SimdI128x4::splat(10).0, [10, 10, 10, 10]);
}

#[test]
fn widening_keeps_the_values() {
    let narrow = SimdI32x4::new(i32::MIN, -1, 0, i32::MAX);
    let mid = narrow.widen();
    assert_eq!(mid.0, [i32::MIN as i64, -1, 0, i32::MAX as i64]);
    let wide = SimdI64x4::new(i64::MIN, -1, 0, i64::MAX).widen();
    assert_eq!(wide.0, [i64::MIN as i128, -1, 0, i64::MAX as i128]);
}

#[test]
fn add_is_slot_wise_on_every_path() {
    let a = SimdI128x4::new(1, 2, 3, 4);
    let b = SimdI128x4::new(5, 6, 7, 8);
    for path in PATHS {
        assert_eq!(a.add(b, path).0, [6, 8, 10, 12]);
    }
}

#[test]
fn sub_is_slot_wise_on_every_path() {
    let a = SimdI128x4::new(1, 2, 3, 4);
    let b = SimdI128x4::new(5, 6, 7, -8);
    for path in PATHS {
        assert_eq!(a.sub(b, path).0, [-4, -4, -4, 12]);
    }
}

#[test]
fn mul_is_slot_wise_on_every_path() {
    let a = SimdI128x4::new(1, 2, 3, 4);
    let b = SimdI128x4::new(5, 6, 7, -8);
    for path in PATHS {
        assert_eq!(a.mul(b, path).0, [5, 12, 21, -32]);
    }
}

#[test]
fn div_rounds_towards_zero_on_every_path() {
    let a = SimdI128x4::new(7, -7, 7, -7);
    let b = SimdI128x4::new(2, 2, -2, -2);
    for path in PATHS {
        assert_eq!(a.div(b, path).0, [3, -3, -3, 3]);
    }
    let a = SimdI128x4::new(0, 9, i128::MIN, i128::MAX);
    let b = SimdI128x4::new(5, 3, 1, -1);
    for path in PATHS {
        assert_eq!(a.div(b, path).0, [0, 3, i128::MIN, -i128::MAX]);
    }
}

#[test]
fn min_and_max_are_slot_wise_on_every_path() {
    let a = SimdI128x4::new(1, 6, -3, 4);
    let b = SimdI128x4::new(5, 2, -7, 4);
    for path in PATHS {
        assert_eq!(a.min(b, path).0, [1, 2, -7, 4]);
        assert_eq!(a.max(b, path).0, [5, 6, -3, 4]);
    }
}

#[test]
fn magnitude_as_max_of_value_and_negation() {
    let v = SimdI128x4::new(-3, 3, 0, -1);
    for path in PATHS {
        let negated = SimdI128x4::splat(0).sub(v, path);
        assert_eq!(v.max(negated, path).0, [3, 3, 0, 1]);
    }
}

#[test]
fn non_negative_includes_zero() {
    assert_eq!(SimdI128x4::new(-1, 0, 1, i128::MIN).non_negative(), [false, true, true, false]);
}

#[test]
fn arithmetic_at_the_ends_of_the_range() {
    let a = SimdI128x4::new(i128::MAX, i128::MIN, i128::MAX - 1, 0);
    let b = SimdI128x4::new(0, 0, 1, i128::MIN);
    for path in PATHS {
        assert_eq!(a.add(b, path).0, [i128::MAX, i128::MIN, i128::MAX, i128::MIN]);
    }
}
