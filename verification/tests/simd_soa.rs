use hearton_public::simd::soa::{Aabb, IVec3, SimdAabbX4, SimdVec3X4};
use hearton_public::simd::types::{SimdI32x4, SimdI64x4};
use hearton_public::simd::SimdPath;

const PATHS: [SimdPath; 6] = [
    SimdPath::AVX512,
    SimdPath::AVX2,
    SimdPath::SSE42,
    SimdPath::NEON,
    SimdPath::Wasm128,
    SimdPath::Scalar,
];

fn v(x: i32, y: i32, z: i32) -> IVec3 {
    IVec3::new(x, y, z)
}

fn cube(center: IVec3, half: i32) -> Aabb {
    Aabb { center, half_extents: v(half, half, half) }
}

#[test]
fn vec_batch_from_vec3s_is_structure_of_arrays() {
    let batch = SimdVec3X4::from_vec3s(v(1, 2, 3), v(4, 5, 6), v(7, 8, 9), v(10, 11, 12));
    assert_eq!(batch.x.0, [1, 4, 7, 10]);
    assert_eq!(batch.y.0, [2, 5, 8, 11]);
    assert_eq!(batch.z.0, [3, 6, 9, 12]);
}

#[test]
fn vec_batch_splat_repeats_the_vector() {
    let batch = SimdVec3X4::splat(v(1, -2, 3));
    assert_eq!(batch.x, SimdI32x4::splat(1));
    assert_eq!(batch.y, SimdI32x4::splat(-2));
    assert_eq!(batch.z, SimdI32x4::splat(3));
}

#[test]
fn vec_batch_add_is_slot_wise() {
    let a = SimdVec3X4::from_vec3s(v(1, 2, 3), v(4, 5, 6), v(7, 8, 9), v(10, 11, 12));
    let b = SimdVec3X4::splat(v(100, 200, -300));
    for path in PATHS {
        let sum = a.add(b, path);
        assert_eq!(sum.x.0, [101, 104, 107, 110]);
        assert_eq!(sum.y.0, [202, 205, 208, 211]);
        assert_eq!(sum.z.0, [-297, -294, -291, -288]);
    }
}

#[test]
fn vec_batch_dot_is_x1x2_plus_y1y2_plus_z1z2() {
    let a = SimdVec3X4::from_vec3s(v(1, 2, 3), v(4, 5, 6), v(-7, 8, -9), v(0, 0, 0));
    let b = SimdVec3X4::from_vec3s(v(1, 1, 1), v(2, 0, -1), v(3, 3, 3), v(5, 5, 5));
    for path in PATHS {
        assert_eq!(a.dot(&b, path).0, [6, 2, -24, 0]);
    }
}

#[test]
fn vec_batch_dot_is_exact_at_the_ends_of_the_grid() {
    let a = SimdVec3X4::splat(v(i32::MIN, i32::MIN, i32::MIN));
    let b = SimdVec3X4::splat(v(i32::MIN, i32::MIN, i32::MIN));
    let square = (i32::MIN as i128) * (i32::MIN as i128);
    for path in PATHS {
        assert_eq!(a.dot(&b, path).0, [3 * square; 4]);
    }
}

#[test]
fn box_batch_from_aabbs_holds_the_corners() {
    let batch = SimdAabbX4::from_aabbs(
        &cube(v(0, 0, 0), 1),
        &cube(v(5, 0, 0), 1),
        &Aabb { center: v(10, 20, 30), half_extents: v(1, 2, 3) },
        &cube(v(15, 0, 0), 0),
    );
    assert_eq!(batch.min_x.0, [-1, 4, 9, 15]);
    assert_eq!(batch.min_y.0, [-1, -1, 18, 0]);
    assert_eq!(batch.min_z.0, [-1, -1, 27, 0]);
    assert_eq!(batch.max_x.0, [1, 6, 11, 15]);
    assert_eq!(batch.max_y.0, [1, 1, 22, 0]);
    assert_eq!(batch.max_z.0, [1, 1, 33, 0]);
}

#[test]
fn box_batch_corners_are_exact_beyond_32_bits() {
    let far = Aabb { center: v(i32::MAX, i32::MIN, 0), half_extents: v(i32::MAX, i32::MAX, 1) };
    let batch = SimdAabbX4::from_aabbs(&far, &far, &far, &far);
    assert_eq!(batch.max_x.0[0], 2 * (i32::MAX as i64));
    assert_eq!(batch.min_x.0[0], 0);
    assert_eq!(batch.min_y.0[0], i32::MIN as i64 - i32::MAX as i64);
    assert_eq!(batch.max_y.0[0], -1);
}

#[test]
fn box_batch_from_centers_and_extents_equals_from_aabbs() {
    let boxes = [
        Aabb { center: v(0, 0, 0), half_extents: v(1, 1, 1) },
        Aabb { center: v(5, -6, 7), half_extents: v(1, 2, 3) },
        Aabb { center: v(i32::MIN, 0, i32::MAX), half_extents: v(4, 0, 9) },
        Aabb { center: v(15, 0, 0), half_extents: v(0, 0, 0) },
    ];
    let expected = SimdAabbX4::from_aabbs(&boxes[0], &boxes[1], &boxes[2], &boxes[3]);
    let centers =
        SimdVec3X4::from_vec3s(boxes[0].center, boxes[1].center, boxes[2].center, boxes[3].center);
    let extents = SimdVec3X4::from_vec3s(
        boxes[0].half_extents,
        boxes[1].half_extents,
        boxes[2].half_extents,
        boxes[3].half_extents,
    );
    for path in PATHS {
        assert_eq!(SimdAabbX4::from_centers_and_extents(centers, extents, path), expected);
    }
}

#[test]
fn box_batch_new_takes_corners() {
    let min = SimdVec3X4::from_vec3s(v(0, 0, 0), v(2, 0, 0), v(4, 0, 0), v(6, 0, 0));
    let max = SimdVec3X4::from_vec3s(v(1, 1, 1), v(3, 1, 1), v(5, 1, 1), v(7, 1, 1));
    let batch = SimdAabbX4::new(min, max);
    assert_eq!(batch.min_x.0, [0, 2, 4, 6]);
    assert_eq!(batch.max_x.0, [1, 3, 5, 7]);
    assert_eq!(batch.min_y.0, [0, 0, 0, 0]);
    assert_eq!(batch.max_z.0, [1, 1, 1, 1]);
}

#[test]
fn intersects_aabb_sets_one_bit_for_each_box_that_overlaps() {
    // boxes [0,2], [4,6], [8,10], [12,14] along x, all [0,2] along y and z
    let batch = SimdAabbX4::from_aabbs(
        &cube(v(1, 1, 1), 1),
        &cube(v(5, 1, 1), 1),
        &cube(v(9, 1, 1), 1),
        &cube(v(13, 1, 1), 1),
    );
    // [1,3]: overlaps the first only
    assert_eq!(batch.intersects_aabb(&cube(v(2, 2, 2), 1)), 0b0001);
    // [2,4]: touches the first and the second
    assert_eq!(batch.intersects_aabb(&cube(v(3, 1, 1), 1)), 0b0011);
    // [7,11]: the third only
    assert_eq!(batch.intersects_aabb(&cube(v(9, 1, 1), 2)), 0b0100);
    // [11,15]: the fourth only
    assert_eq!(batch.intersects_aabb(&cube(v(13, 1, 1), 2)), 0b1000);
    // everything
    assert_eq!(batch.intersects_aabb(&cube(v(7, 1, 1), 7)), 0b1111);
    // nothing: off along y
    assert_eq!(batch.intersects_aabb(&cube(v(7, 10, 1), 7)), 0);
    // nothing: beyond the last
    assert_eq!(batch.intersects_aabb(&cube(v(20, 1, 1), 1)), 0);
    // [5,13]: all but the first
    assert_eq!(batch.intersects_aabb(&cube(v(9, 1, 1), 4)), 0b1110);
}

#[test]
fn plane_test_of_the_cube_of_distance_ten() {
    let inside = cube(v(0, 0, 0), 1);
    let outside = cube(v(20, 0, 0), 1);
    let batch = SimdAabbX4::from_aabbs(&inside, &outside, &inside, &outside);
    let offset = SimdI64x4::splat(10);
    let normals = [v(1, 0, 0), v(-1, 0, 0), v(0, 1, 0), v(0, -1, 0), v(0, 0, 1), v(0, 0, -1)];
    for path in PATHS {
        for normal in normals {
            let passes = batch.plane_test(&SimdVec3X4::splat(normal), &offset, path);
            // the box at the origin passes every plane
            assert!(passes[0]);
            assert!(passes[2]);
            // the box at x = 20 is rejected by the plane that faces -x, and by no other
            assert_eq!(passes[1], normal != v(-1, 0, 0));
            assert_eq!(passes[3], normal != v(-1, 0, 0));
        }
    }
}

#[test]
fn plane_test_is_boundary_inclusive() {
    // plane x <= 10, that is normal (-1, 0, 0) and offset 10
    let normal = SimdVec3X4::splat(v(-1, 0, 0));
    let offset = SimdI64x4::splat(10);
    let batch = SimdAabbX4::from_aabbs(
        &cube(v(11, 0, 0), 1), // reaches from 10 to 12: touches
        &cube(v(12, 0, 0), 1), // reaches from 11 to 13: outside
        &cube(v(10, 0, 0), 0), // a point on the plane
        &cube(v(11, 0, 0), 0), // a point one step outside
    );
    for path in PATHS {
        assert_eq!(batch.plane_test(&normal, &offset, path), [true, false, true, false]);
    }
}

#[test]
fn plane_test_uses_the_plane_of_each_slot() {
    let b = cube(v(0, 0, 0), 1);
    let batch = SimdAabbX4::from_aabbs(&b, &b, &b, &b);
    let normal = SimdVec3X4::from_vec3s(v(1, 0, 0), v(1, 0, 0), v(0, 2, 0), v(1, 1, 1));
    let offset = SimdI64x4::new(-1, -2, -3, -4);
    // slot 0: 0 - 1 + 1 = 0, slot 1: 0 - 2 + 1 = -1, slot 2: 0 - 3 + 2 = -1, slot 3: 0 - 4 + 3 = -1
    for path in PATHS {
        assert_eq!(batch.plane_test(&normal, &offset, path), [true, false, false, false]);
    }
}

#[test]
fn plane_test_with_a_slanted_normal() {
    // plane 3x + 4y - 50 >= 0
    let normal = SimdVec3X4::splat(v(3, 4, 0));
    let offset = SimdI64x4::splat(-50);
    let batch = SimdAabbX4::from_aabbs(
        &cube(v(6, 8, 0), 0),                                       // 18 + 32 - 50 = 0
        &cube(v(6, 7, 0), 0),                                       // 18 + 28 - 50 = -4
        &Aabb { center: v(6, 7, 0), half_extents: v(0, 1, 100) },  // -4 + 4 = 0
        &Aabb { center: v(6, 7, 0), half_extents: v(1, 0, 100) },  // -4 + 3 = -1
    );
    for path in PATHS {
        assert_eq!(batch.plane_test(&normal, &offset, path), [true, false, true, false]);
    }
}

#[test]
fn plane_test_is_exact_at_the_ends_of_the_grid() {
    let normal = SimdVec3X4::splat(v(i32::MIN, i32::MIN, i32::MIN));
    let far = Aabb {
        center: v(i32::MAX, i32::MAX, i32::MAX),
        half_extents: v(i32::MAX, i32::MAX, i32::MAX),
    };
    let batch = SimdAabbX4::from_aabbs(&far, &far, &far, &far);
    // the nearest corner is the origin, at distance equal to the offset
    for path in PATHS {
        assert_eq!(batch.plane_test(&normal, &SimdI64x4::splat(0), path), [true; 4]);
        assert_eq!(batch.plane_test(&normal, &SimdI64x4::splat(-1), path), [false; 4]);
        assert_eq!(batch.plane_test(&normal, &SimdI64x4::splat(i64::MAX), path), [true; 4]);
        assert_eq!(batch.plane_test(&normal, &SimdI64x4::splat(i64::MIN), path), [false; 4]);
    }
}

#[test]
fn plane_test_with_corners_on_odd_coordinates() {
    // box [0,1] x [0,1] x [0,1], whose center is not on the grid
    let min = SimdVec3X4::splat(v(0, 0, 0));
    let max = SimdVec3X4::splat(v(1, 1, 1));
    let batch = SimdAabbX4::new(min, max);
    // plane x >= 1: the box touches it with its far face
    let passes = batch.plane_test(&SimdVec3X4::splat(v(1, 0, 0)), &SimdI64x4::splat(-1), SimdPath::AVX2);
    assert_eq!(passes, [true; 4]);
    // plane x >= 2: one step away
    let passes = batch.plane_test(&SimdVec3X4::splat(v(1, 0, 0)), &SimdI64x4::splat(-2), SimdPath::AVX2);
    assert_eq!(passes, [false; 4]);
}

#[test]
fn to_centers_and_extents_gives_back_what_the_batch_was_built_from() {
    let centers = SimdVec3X4::from_vec3s(v(0, 0, 0), v(5, -6, 7), v(i32::MIN, 0, i32::MAX), v(1, 2, 3));
    let extents = SimdVec3X4::from_vec3s(v(1, 1, 1), v(1, 2, 3), v(i32::MAX, 0, i32::MAX), v(0, 0, 0));
    for path in PATHS {
        let batch = SimdAabbX4::from_centers_and_extents(centers, extents, path);
        assert_eq!(batch.to_centers_and_extents(), Some((centers, extents)));
    }
}

#[test]
fn to_centers_and_extents_halves_exactly_or_not_at_all() {
    // [0,2] x [1,5] x [-3,-1]: center (1, 3, -2), half extents (1, 2, 1)
    let even = SimdAabbX4::new(SimdVec3X4::splat(v(0, 1, -3)), SimdVec3X4::splat(v(2, 5, -1)));
    assert_eq!(
        even.to_centers_and_extents(),
        Some((SimdVec3X4::splat(v(1, 3, -2)), SimdVec3X4::splat(v(1, 2, 1))))
    );
    // [0,1] along x has its center between two grid points
    let odd = SimdAabbX4::new(SimdVec3X4::splat(v(0, 0, 0)), SimdVec3X4::splat(v(1, 2, 2)));
    assert_eq!(odd.to_centers_and_extents(), None);
    // one odd box among four is enough
    let min = SimdVec3X4::from_vec3s(v(0, 0, 0), v(0, 0, 0), v(0, 0, -1), v(0, 0, 0));
    let max = SimdVec3X4::from_vec3s(v(2, 2, 2), v(2, 2, 2), v(2, 2, 2), v(2, 2, 2));
    assert_eq!(SimdAabbX4::new(min, max).to_centers_and_extents(), None);
}

#[test]
fn to_centers_and_extents_needs_the_halves_on_the_grid() {
    let mut batch = SimdAabbX4::new(SimdVec3X4::splat(v(0, 0, 0)), SimdVec3X4::splat(v(2, 2, 2)));
    // center 2^31, one step beyond the grid
    batch.min_x.0[2] = (1i64 << 31) - 2;
    batch.max_x.0[2] = (1i64 << 31) + 2;
    assert_eq!(batch.to_centers_and_extents(), None);
    // center 2^31 - 1, the last step of the grid
    batch.min_x.0[2] = (1i64 << 31) - 3;
    batch.max_x.0[2] = (1i64 << 31) + 1;
    let (centers, extents) = batch.to_centers_and_extents().unwrap();
    assert_eq!(centers.x.0, [1, 1, i32::MAX, 1]);
    assert_eq!(extents.x.0, [1, 1, 2, 1]);
    // an inverted box has a negative half extent
    batch.min_y.0[0] = 6;
    batch.max_y.0[0] = -2;
    let (centers, extents) = batch.to_centers_and_extents().unwrap();
    assert_eq!(centers.y.0[0], 2);
    assert_eq!(extents.y.0[0], -4);
    // the ends of the 64-bit range are far off the grid
    batch.min_z.0[3] = i64::MIN;
    batch.max_z.0[3] = i64::MAX - 1;
    assert_eq!(batch.to_centers_and_extents(), None);
}
