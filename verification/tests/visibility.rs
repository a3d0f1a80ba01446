use hearton_public::simd::soa::{IVec3, SimdAabbX4, SimdVec3X4};
use hearton_public::simd::types::SimdI64x4;
use hearton_public::simd::visibility::{
    cull_batch, extract_frustum_planes, frustum_cull_aabbs, frustum_cull_objects,
    pack_aabbs_to_simd, simd_visibility_system, SimdVisibilityStats, UNIT_LENGTH,
};
use hearton_public::simd::{CpuFeatures, HeartOnSimdCapabilities, SimdPath};

const PATHS: [SimdPath; 6] = [
    SimdPath::AVX512,
    SimdPath::AVX2,
    SimdPath::SSE42,
    SimdPath::NEON,
    SimdPath::Wasm128,
    SimdPath::Scalar,
];

fn v(x: i32, y: i32, z: i32) -> IVec3 {
    IVec3::new(x, y, z)
}

/// The six planes of the cube that reaches ten steps from the origin in
/// every direction, each normal pointing inward.
fn cube_of_ten() -> ([SimdVec3X4; 6], [SimdI64x4; 6]) {
    let normals = [
        SimdVec3X4::splat(v(1, 0, 0)),
        SimdVec3X4::splat(v(-1, 0, 0)),
        SimdVec3X4::splat(v(0, 1, 0)),
        SimdVec3X4::splat(v(0, -1, 0)),
        SimdVec3X4::splat(v(0, 0, 1)),
        SimdVec3X4::splat(v(0, 0, -1)),
    ];
    (normals, [SimdI64x4::splat(10); 6])
}

/// A view-projection matrix whose frustum is the cube of ten.
fn cube_matrix() -> [[i32; 4]; 4] {
    [[1, 0, 0, 0], [0, 1, 0, 0], [0, 0, 1, 0], [0, 0, 0, 10]]
}

#[test]
fn pack_aabbs_basic() {
    let entities = vec![
        (v(0, 0, 0), v(1, 1, 1)),
        (v(5, 0, 0), v(1, 1, 1)),
        (v(10, 0, 0), v(1, 1, 1)),
        (v(15, 0, 0), v(1, 1, 1)),
    ];

    let simd_aabb = pack_aabbs_to_simd(&entities, SimdPath::Scalar);

    assert_eq!(simd_aabb.min_x.0[0], -1);
    // the largest corner is the center plus the half extent
    assert_eq!(simd_aabb.max_x.0[1], 6);
}

#[test]
fn pack_fills_every_lane() {
    let entities = vec![
        (v(0, 1, 2), v(1, 2, 3)),
        (v(5, 6, 7), v(1, 1, 1)),
        (v(10, 0, 0), v(0, 0, 0)),
        (v(15, -3, 9), v(2, 2, 2)),
    ];
    for path in PATHS {
        let batch = pack_aabbs_to_simd(&entities, path);
        assert_eq!(batch.min_x.0, [-1, 4, 10, 13]);
        assert_eq!(batch.min_y.0, [-1, 5, 0, -5]);
        assert_eq!(batch.min_z.0, [-1, 6, 0, 7]);
        assert_eq!(batch.max_x.0, [1, 6, 10, 17]);
        assert_eq!(batch.max_y.0, [3, 7, 0, -1]);
        assert_eq!(batch.max_z.0, [5, 8, 0, 11]);
    }
}

#[test]
fn pack_pads_with_boxes_without_size_at_the_origin() {
    let entities = vec![(v(7, 8, 9), v(1, 1, 1))];
    let batch = pack_aabbs_to_simd(&entities, SimdPath::AVX2);
    assert_eq!(batch.min_x.0, [6, 0, 0, 0]);
    assert_eq!(batch.max_x.0, [8, 0, 0, 0]);
    assert_eq!(batch.min_y.0, [7, 0, 0, 0]);
    assert_eq!(batch.max_z.0, [10, 0, 0, 0]);
    let none: Vec<(IVec3, IVec3)> = Vec::new();
    let empty = pack_aabbs_to_simd(&none, SimdPath::Scalar);
    assert_eq!(empty, SimdAabbX4::new(SimdVec3X4::splat(v(0, 0, 0)), SimdVec3X4::splat(v(0, 0, 0))));
}

#[test]
fn pack_takes_the_first_four_only() {
    let entities = vec![
        (v(0, 0, 0), v(1, 1, 1)),
        (v(1, 0, 0), v(1, 1, 1)),
        (v(2, 0, 0), v(1, 1, 1)),
        (v(3, 0, 0), v(1, 1, 1)),
        (v(100, 0, 0), v(1, 1, 1)),
    ];
    let batch = pack_aabbs_to_simd(&entities, SimdPath::Scalar);
    assert_eq!(batch.min_x.0, [-1, 0, 1, 2]);
    assert_eq!(batch.max_x.0, [1, 2, 3, 4]);
}

#[test]
fn stats_default() {
    let stats = SimdVisibilityStats::default();
    assert_eq!(stats.entities_checked, 0);
    assert_eq!(stats.entities_visible, 0);
}

#[test]
fn stats_default_is_all_zero_on_the_scalar_path() {
    let stats = SimdVisibilityStats::default();
    assert_eq!(stats.simd_batches, 0);
    assert_eq!(stats.simd_path, SimdPath::Scalar);
    assert_eq!(stats.frame_time_us, 0);
}

#[test]
fn cube_scene_inside_is_visible_outside_is_not() {
    let (normals, distances) = cube_of_ten();
    let objects = vec![(v(0, 0, 0), v(1, 1, 1)), (v(20, 0, 0), v(1, 1, 1))];
    for path in PATHS {
        assert_eq!(frustum_cull_objects(&objects, &normals, &distances, path), vec![true, false]);
    }
}

#[test]
fn five_objects_give_five_flags() {
    let (normals, distances) = cube_of_ten();
    let objects = vec![
        (v(0, 0, 0), v(1, 1, 1)),
        (v(20, 0, 0), v(1, 1, 1)),
        (v(0, -20, 0), v(1, 1, 1)),
        (v(5, 5, 5), v(1, 1, 1)),
        (v(0, 0, 30), v(1, 1, 1)),
    ];
    for path in PATHS {
        let visible = frustum_cull_objects(&objects, &normals, &distances, path);
        assert_eq!(visible.len(), 5);
        assert_eq!(visible, vec![true, false, false, true, false]);
    }
    // the fifth flag is the fifth object's own: move it inside
    let mut moved = objects.clone();
    moved[4] = (v(0, 0, 3), v(1, 1, 1));
    for path in PATHS {
        let visible = frustum_cull_objects(&moved, &normals, &distances, path);
        assert_eq!(visible, vec![true, false, false, true, true]);
    }
}

#[test]
fn padding_is_never_reported() {
    // the padding sits at the origin, inside this frustum, yet adds no flag
    let (normals, distances) = cube_of_ten();
    for count in 0..10usize {
        let objects: Vec<(IVec3, IVec3)> =
            (0..count).map(|i| (v(100 + i as i32, 0, 0), v(1, 1, 1))).collect();
        for path in PATHS {
            let visible = frustum_cull_objects(&objects, &normals, &distances, path);
            assert_eq!(visible, vec![false; count]);
        }
    }
}

#[test]
fn culling_keeps_length_and_order() {
    let (normals, distances) = cube_of_ten();
    // object i sits at x = 3 * i: visible while 3 * i - 1 <= 10
    let objects: Vec<(IVec3, IVec3)> = (0..23).map(|i| (v(3 * i, 0, 0), v(1, 1, 1))).collect();
    let expected: Vec<bool> = (0..23).map(|i| 3 * i - 1 <= 10).collect();
    for path in PATHS {
        assert_eq!(frustum_cull_objects(&objects, &normals, &distances, path), expected);
    }
    // the same objects in reverse order give the flags in reverse order
    let reversed: Vec<(IVec3, IVec3)> = objects.iter().rev().cloned().collect();
    let expected_reversed: Vec<bool> = expected.iter().rev().cloned().collect();
    for path in PATHS {
        assert_eq!(
            frustum_cull_objects(&reversed, &normals, &distances, path),
            expected_reversed
        );
    }
}

#[test]
fn culling_twice_gives_the_same_flags() {
    let (normals, distances) = cube_of_ten();
    let objects: Vec<(IVec3, IVec3)> =
        (0..17).map(|i| (v(i * i - 40, 2 * i - 9, 7 - i), v(i % 3, 1, 2))).collect();
    for path in PATHS {
        let first = frustum_cull_objects(&objects, &normals, &distances, path);
        let second = frustum_cull_objects(&objects, &normals, &distances, path);
        assert_eq!(first, second);
    }
}

#[test]
fn every_path_agrees_with_the_scalar_path() {
    let planes = extract_frustum_planes(&[
        [3, -1, 0, 7],
        [2, 5, -1, 0],
        [0, 1, 4, -30],
        [1, 1, 1, 400],
    ]);
    let objects: Vec<(IVec3, IVec3)> = (0..101)
        .map(|i| (v(37 * i % 211 - 100, 53 * i % 197 - 90, 71 * i % 223 - 110), v(i % 7, i % 5, i % 3)))
        .collect();
    let scalar = frustum_cull_objects(&objects, &planes.0, &planes.1, SimdPath::Scalar);
    assert_eq!(scalar.len(), 101);
    assert!(scalar.iter().any(|&flag| flag));
    assert!(scalar.iter().any(|&flag| !flag));
    for path in PATHS {
        assert_eq!(frustum_cull_objects(&objects, &planes.0, &planes.1, path), scalar);
    }
}

#[test]
fn touching_the_frustum_is_visible() {
    let (normals, distances) = cube_of_ten();
    let objects = vec![
        (v(11, 0, 0), v(1, 1, 1)),   // reaches back to x = 10
        (v(12, 0, 0), v(1, 1, 1)),   // one step short
        (v(-11, -11, -11), v(1, 1, 1)), // touches the corner
        (v(10, 10, 10), v(0, 0, 0)), // a point on the corner
        (v(0, 0, 11), v(0, 0, 0)),   // a point one step out
    ];
    for path in PATHS {
        assert_eq!(
            frustum_cull_objects(&objects, &normals, &distances, path),
            vec![true, false, true, true, false]
        );
    }
}

#[test]
fn culling_no_object_gives_no_flag() {
    let (normals, distances) = cube_of_ten();
    let none: Vec<(IVec3, IVec3)> = Vec::new();
    assert!(frustum_cull_objects(&none, &normals, &distances, SimdPath::AVX512).is_empty());
    let no_batches: Vec<SimdAabbX4> = Vec::new();
    assert!(frustum_cull_aabbs(&no_batches, &normals, &distances, SimdPath::Scalar).is_empty());
}

#[test]
fn cull_batch_is_the_conjunction_of_six_plane_tests() {
    let (normals, distances) = cube_of_ten();
    let entities = vec![
        (v(0, 0, 0), v(1, 1, 1)),
        (v(0, 20, 0), v(1, 1, 1)),
        (v(0, 0, -20), v(1, 1, 1)),
        (v(9, 9, 9), v(1, 1, 1)),
    ];
    for path in PATHS {
        let batch = pack_aabbs_to_simd(&entities, path);
        let mut expected = [true; 4];
        for k in 0..6 {
            let passes = batch.plane_test(&normals[k], &distances[k], path);
            for i in 0..4 {
                expected[i] = expected[i] && passes[i];
            }
        }
        assert_eq!(cull_batch(&batch, &normals, &distances, path), expected);
        assert_eq!(expected, [true, false, false, true]);
    }
}

#[test]
fn frustum_cull_aabbs_gives_four_flags_for_each_batch() {
    let (normals, distances) = cube_of_ten();
    let first = pack_aabbs_to_simd(
        &[(v(0, 0, 0), v(1, 1, 1)), (v(20, 0, 0), v(1, 1, 1)), (v(0, 0, 0), v(50, 50, 50)), (v(0, 11, 0), v(0, 0, 0))],
        SimdPath::Scalar,
    );
    let second = pack_aabbs_to_simd(&[(v(0, 0, 12), v(1, 1, 1))], SimdPath::Scalar);
    for path in PATHS {
        let visible = frustum_cull_aabbs(&[first, second], &normals, &distances, path);
        // in a batch, the padding is a box like any other: it lies at the origin
        assert_eq!(visible, vec![true, false, true, false, false, true, true, true]);
    }
}

#[test]
fn extracted_planes_are_the_row_combinations_normalized() {
    let unit = UNIT_LENGTH as i32;
    assert_eq!(UNIT_LENGTH, 1_048_576);
    let (normals, distances) = extract_frustum_planes(&cube_matrix());
    // left: row 3 + row 0 = (1, 0, 0, 10)
    assert_eq!(normals[0], SimdVec3X4::splat(v(unit, 0, 0)));
    // right: row 3 - row 0 = (-1, 0, 0, 10)
    assert_eq!(normals[1], SimdVec3X4::splat(v(-unit, 0, 0)));
    // bottom, top
    assert_eq!(normals[2], SimdVec3X4::splat(v(0, unit, 0)));
    assert_eq!(normals[3], SimdVec3X4::splat(v(0, -unit, 0)));
    // near: row 3 + row 2 = (0, 0, 1, 10)
    assert_eq!(normals[4], SimdVec3X4::splat(v(0, 0, unit)));
    // far: row 2 = (0, 0, 1, 0)
    assert_eq!(normals[5], SimdVec3X4::splat(v(0, 0, unit)));
    for k in 0..5 {
        assert_eq!(distances[k], SimdI64x4::splat(10 * UNIT_LENGTH));
    }
    assert_eq!(distances[5], SimdI64x4::splat(0));
}

#[test]
fn normalization_rounds_towards_zero() {
    // left = (3, 4, 0, 5) of length 5, right = (-3, -4, 0, -5)
    let m = [[3, 4, 0, 5], [0, 0, 0, 0], [0, 0, 0, 0], [0, 0, 0, 0]];
    let (normals, distances) = extract_frustum_planes(&m);
    // 3/5 and 4/5 of 1048576 are 629145.6 and 838860.8
    assert_eq!(normals[0], SimdVec3X4::splat(v(629_145, 838_860, 0)));
    assert_eq!(distances[0], SimdI64x4::splat(1_048_576));
    assert_eq!(normals[1], SimdVec3X4::splat(v(-629_145, -838_860, 0)));
    assert_eq!(distances[1], SimdI64x4::splat(-1_048_576));
    // left = (1, 1, 1, 7) of length sqrt(3): 1048576 / sqrt(3) = 605395.6..., 7 times that = 4237769.9...
    let m = [[1, 1, 1, 7], [0, 0, 0, 0], [0, 0, 0, 0], [0, 0, 0, 0]];
    let (normals, distances) = extract_frustum_planes(&m);
    assert_eq!(normals[0], SimdVec3X4::splat(v(605_395, 605_395, 605_395)));
    assert_eq!(distances[0], SimdI64x4::splat(4_237_769));
}

#[test]
fn scaling_the_matrix_leaves_the_planes_as_they_are() {
    let m = [[3, 4, 0, 5], [-2, 1, 2, 9], [0, 0, 1, -4], [1, 2, 3, 40]];
    let mut scaled = m;
    for row in scaled.iter_mut() {
        for entry in row.iter_mut() {
            *entry *= 1000;
        }
    }
    assert_eq!(extract_frustum_planes(&m), extract_frustum_planes(&scaled));
}

#[test]
fn a_plane_without_direction_rejects_nothing() {
    // rows 0 to 2 are zero, and row 3 has an offset only: every normal is zero
    let m = [[0, 0, 0, 0], [0, 0, 0, 0], [0, 0, 0, 0], [0, 0, 0, -5]];
    let (normals, distances) = extract_frustum_planes(&m);
    for k in 0..6 {
        assert_eq!(normals[k], SimdVec3X4::splat(v(0, 0, 0)));
        assert_eq!(distances[k], SimdI64x4::splat(0));
    }
    let objects = vec![(v(0, 0, 0), v(1, 1, 1)), (v(i32::MAX, i32::MIN, 7), v(0, 0, 0))];
    assert_eq!(frustum_cull_objects(&objects, &normals, &distances, SimdPath::NEON), vec![true, true]);
}

#[test]
fn extraction_stands_the_largest_entries() {
    let m = [
        [i32::MIN, i32::MAX, 0, i32::MIN],
        [i32::MAX, i32::MAX, i32::MAX, i32::MAX],
        [0, 0, i32::MIN, i32::MAX],
        [i32::MIN, i32::MAX, i32::MIN, i32::MIN],
    ];
    let (normals, distances) = extract_frustum_planes(&m);
    // left = (2 * MIN, 2 * MAX, MIN, 2 * MIN): twice (-2^31, 2^31 - 1, -2^30, -2^31)
    let x = normals[0].x.0[0] as i64;
    let y = normals[0].y.0[0] as i64;
    let z = normals[0].z.0[0] as i64;
    let length_squared = x * x + y * y + z * z;
    assert!(length_squared <= UNIT_LENGTH * UNIT_LENGTH);
    assert!((x.abs() + 1) * (x.abs() + 1) + (y.abs() + 1) * (y.abs() + 1) + (z.abs() + 1) * (z.abs() + 1) > UNIT_LENGTH * UNIT_LENGTH);
    assert!(x < 0 && y > 0 && z < 0);
    assert_eq!(distances[0].0[0], x);
    // right = row 3 - row 0 = (0, 0, MIN, 0)
    assert_eq!(normals[1], SimdVec3X4::splat(v(0, 0, -(UNIT_LENGTH as i32))));
    assert_eq!(distances[1], SimdI64x4::splat(0));
}

#[test]
fn extracted_cube_culls_like_the_cube() {
    let (normals, distances) = extract_frustum_planes(&cube_matrix());
    let objects = vec![
        (v(0, 0, 5), v(1, 1, 1)),
        (v(20, 0, 5), v(1, 1, 1)),
        (v(11, 0, 5), v(1, 1, 1)),
        (v(0, 0, -2), v(1, 1, 1)), // behind the far plane z >= 0
        (v(0, -12, 5), v(1, 1, 1)),
    ];
    for path in PATHS {
        assert_eq!(
            frustum_cull_objects(&objects, &normals, &distances, path),
            vec![true, false, true, false, false]
        );
    }
}

#[test]
fn visibility_system_counts_for_every_view() {
    let caps = HeartOnSimdCapabilities::new(CpuFeatures { avx2: true, ..CpuFeatures::none() });
    let mut stats = SimdVisibilityStats::default();
    stats.frame_time_us = 77;
    // x >= 2 and x <= -2 at once: no box of half extent 1 reaches both
    let empty_view = [[1, 0, 0, 0], [0, 1, 0, 0], [0, 0, 1, 0], [0, 0, 0, -2]];
    let views = [cube_matrix(), empty_view];
    let entities = vec![
        (v(0, 0, 5), v(1, 1, 1)),
        (v(20, 0, 5), v(1, 1, 1)),
        (v(9, 9, 9), v(1, 1, 1)),
        (v(0, 0, 11), v(1, 1, 1)),
        (v(0, 0, -5), v(1, 1, 1)),
    ];
    simd_visibility_system(&caps, &mut stats, &views, &entities);
    assert_eq!(stats.simd_path, SimdPath::AVX2);
    assert_eq!(stats.entities_checked, 10);
    assert_eq!(stats.simd_batches, 4);
    // the cube sees the first, the third and the fourth; the other view sees nothing
    assert_eq!(stats.entities_visible, 3);
    assert_eq!(stats.frame_time_us, 77);
}

#[test]
fn visibility_system_replaces_the_old_counts() {
    let caps = HeartOnSimdCapabilities::new(CpuFeatures::none());
    let mut stats = SimdVisibilityStats {
        entities_checked: 5,
        entities_visible: 4,
        simd_batches: 3,
        simd_path: SimdPath::AVX512,
        frame_time_us: 2,
    };
    let entities = vec![(v(0, 0, 5), v(1, 1, 1)); 8];
    simd_visibility_system(&caps, &mut stats, &[cube_matrix()], &entities);
    assert_eq!(
        stats,
        SimdVisibilityStats {
            entities_checked: 8,
            entities_visible: 8,
            simd_batches: 2,
            simd_path: SimdPath::Scalar,
            frame_time_us: 2,
        }
    );
    simd_visibility_system(&caps, &mut stats, &[], &entities);
    assert_eq!(stats.entities_checked, 0);
    assert_eq!(stats.entities_visible, 0);
    assert_eq!(stats.simd_batches, 0);
}
