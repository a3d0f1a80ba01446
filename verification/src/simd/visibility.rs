//! Frustum planes from a view-projection matrix, and the culling of boxes
//! against them.

use vstd::prelude::*;
use super::geometry::{
    abs_int, box_passes, box_visible, dot, lemma_visible_box_of_object, object_visible, point_add,
    point_sub, Plane, Point,
};
use super::math::isqrt;
use super::soa::{IVec3, SimdAabbX4, SimdVec3X4};
use super::types::SimdI64x4;
use super::{HeartOnSimdCapabilities, SimdPath};

verus! {

/// The length of a normalized plane normal, in grid steps: two to the power
/// of 20.
pub const UNIT_LENGTH: i64 = 1_048_576;

/// Row `r` of a matrix, read as a plane: its first three entries are the
/// normal, its fourth the offset.
pub open spec fn matrix_row(m: [[i32; 4]; 4], r: int) -> Plane {
    Plane {
        normal: Point { x: m[r][0] as int, y: m[r][1] as int, z: m[r][2] as int },
        offset: m[r][3] as int,
    }
}

/// The sum of two rows.
pub open spec fn plane_sum(a: Plane, b: Plane) -> Plane {
    Plane {
        normal: Point {
            x: a.normal.x + b.normal.x,
            y: a.normal.y + b.normal.y,
            z: a.normal.z + b.normal.z,
        },
        offset: a.offset + b.offset,
    }
}

/// The difference of two rows.
pub open spec fn plane_difference(a: Plane, b: Plane) -> Plane {
    Plane {
        normal: Point {
            x: a.normal.x - b.normal.x,
            y: a.normal.y - b.normal.y,
            z: a.normal.z - b.normal.z,
        },
        offset: a.offset - b.offset,
    }
}

/// Plane `k` of the frustum of a row-major view-projection matrix, before
/// it is normalized: left, right, bottom, top, near and far, in this order.
///
/// Left and right are row 3 plus and minus row 0, bottom and top are row 3
/// plus and minus row 1, near is row 3 plus row 2, and far is row 2.
///
/// In terms of the clip coordinates `(x, y, z, w)` that the matrix gives a
/// point, the planes keep `x >= -w`, `x <= w`, `y >= -w`, `y <= w`,
/// `z >= -w` and `z >= 0`. This is the depth convention of this library: the
/// matrix has to come from a projection for which these are the bounds of
/// what the camera sees.
pub open spec fn raw_plane(m: [[i32; 4]; 4], k: int) -> Plane {
    if k == 0 {
        plane_sum(matrix_row(m, 3), matrix_row(m, 0))
    } else if k == 1 {
        plane_difference(matrix_row(m, 3), matrix_row(m, 0))
    } else if k == 2 {
        plane_sum(matrix_row(m, 3), matrix_row(m, 1))
    } else if k == 3 {
        plane_difference(matrix_row(m, 3), matrix_row(m, 1))
    } else if k == 4 {
        plane_sum(matrix_row(m, 3), matrix_row(m, 2))
    } else {
        matrix_row(m, 2)
    }
}

/// Whether `c` is what becomes of the component `a` of a plane whose normal
/// has the squared length `s` when the plane is scaled to a normal of
/// `UNIT_LENGTH`: `a * UNIT_LENGTH / sqrt(s)`, rounded towards zero.
pub open spec fn is_unit_component(a: int, s: int, c: int) -> bool {
    &&& a >= 0 ==> c >= 0
    &&& a <= 0 ==> c <= 0
    &&& c * c * s <= a * a * (UNIT_LENGTH * UNIT_LENGTH)
    &&& a * a * (UNIT_LENGTH * UNIT_LENGTH) < (abs_int(c) + 1) * (abs_int(c) + 1) * s
}

/// Whether `unit` is the plane `raw`, normalized.
///
/// A plane whose normal is the zero vector has no direction. It becomes the
/// plane with normal zero and offset zero, which rejects nothing.
pub open spec fn is_normalized(raw: Plane, unit: Plane) -> bool {
    let s = dot(raw.normal, raw.normal);
    if s == 0 {
        unit == (Plane { normal: Point { x: 0, y: 0, z: 0 }, offset: 0 })
    } else {
        &&& is_unit_component(raw.normal.x, s, unit.normal.x)
        &&& is_unit_component(raw.normal.y, s, unit.normal.y)
        &&& is_unit_component(raw.normal.z, s, unit.normal.z)
        &&& is_unit_component(raw.offset, s, unit.offset)
    }
}

/// The plane `raw`, normalized: the one plane that `is_normalized` admits.
pub open spec fn normalized_plane(raw: Plane) -> Plane {
    choose|unit: Plane| is_normalized(raw, unit)
}

/// The six normalized planes of the frustum of a view-projection matrix.
pub open spec fn frustum_planes(m: [[i32; 4]; 4]) -> Seq<Plane> {
    Seq::new(6, |k: int| normalized_plane(raw_plane(m, k)))
}

proof fn lemma_smaller_square(x: int, y: int, s: int)
    by (nonlinear_arith)
    requires
        x >= 0,
        y >= 0,
        s > 0,
        x * x * s < (y + 1) * (y + 1) * s,
    ensures
        x <= y,
{
}

proof fn lemma_square_of_magnitude(c: int)
    by (nonlinear_arith)
    ensures
        abs_int(c) * abs_int(c) == c * c,
{
}

/// A component has one normalized value at most.
pub proof fn lemma_unit_component_unique(a: int, s: int, c1: int, c2: int)
    requires
        s > 0,
        is_unit_component(a, s, c1),
        is_unit_component(a, s, c2),
    ensures
        c1 == c2,
{
    lemma_square_of_magnitude(c1);
    lemma_square_of_magnitude(c2);
    lemma_smaller_square(abs_int(c1), abs_int(c2), s);
    lemma_smaller_square(abs_int(c2), abs_int(c1), s);
    if a == 0 {
        assert(a * a * (UNIT_LENGTH * UNIT_LENGTH) == 0) by (nonlinear_arith)
            requires
                a == 0,
        ;
        lemma_smaller_square(abs_int(c1), 0, s);
        lemma_smaller_square(abs_int(c2), 0, s);
    }
}

/// A plane has one normalized form at most.
pub proof fn lemma_normalized_unique(raw: Plane, u1: Plane, u2: Plane)
    requires
        is_normalized(raw, u1),
        is_normalized(raw, u2),
    ensures
        u1 == u2,
{
    let s = dot(raw.normal, raw.normal);
    if s != 0 {
        assert(s > 0) by (nonlinear_arith)
            requires
                s == raw.normal.x * raw.normal.x + raw.normal.y * raw.normal.y + raw.normal.z
                    * raw.normal.z,
                s != 0,
        ;
        lemma_unit_component_unique(raw.normal.x, s, u1.normal.x, u2.normal.x);
        lemma_unit_component_unique(raw.normal.y, s, u1.normal.y, u2.normal.y);
        lemma_unit_component_unique(raw.normal.z, s, u1.normal.z, u2.normal.z);
        lemma_unit_component_unique(raw.offset, s, u1.offset, u2.offset);
    }
}

/// A bound on the entries of a sum or a difference of two matrix rows: two
/// to the power of 32.
pub open spec fn row_bound() -> int {
    0x1_0000_0000
}

proof fn lemma_division_brackets(a: int, s: int)
    by (nonlinear_arith)
    requires
        a >= 0,
        s > 0,
    ensures
        (a / s) * s <= a < (a / s + 1) * s,
        0 <= a / s <= a,
{
}

proof fn lemma_scale_keeps_order(x: int, y: int, s: int)
    by (nonlinear_arith)
    requires
        x <= y,
        s >= 0,
    ensures
        x * s <= y * s,
{
}

proof fn lemma_square_bound(m: int, bound: int)
    by (nonlinear_arith)
    requires
        m >= 0,
        bound >= 0,
        m * m <= bound * bound,
    ensures
        m <= bound,
{
}

proof fn lemma_square_of_bounded(a: int, bound: int)
    by (nonlinear_arith)
    requires
        -bound <= a <= bound,
    ensures
        0 <= a * a <= bound * bound,
{
}

/// One component of a plane, scaled to a normal of `UNIT_LENGTH`.
fn unit_component(a: i64, s: u128) -> (c: i64)
    requires
        -row_bound() <= a <= row_bound(),
        s > 0,
    ensures
        is_unit_component(a as int, s as int, c as int),
        -0x10_0000_0000_0000 <= c <= 0x10_0000_0000_0000,
{
    let magnitude: u128 = if a >= 0 {
        a as u128
    } else {
        (-a) as u128
    };
    proof {
        lemma_square_of_bounded(magnitude as int, row_bound());
        assert(row_bound() * row_bound() == 0x1_0000_0000_0000_0000);
        assert(UNIT_LENGTH * UNIT_LENGTH == 0x100_0000_0000);
        lemma_scale_keeps_order(
            magnitude * magnitude,
            0x1_0000_0000_0000_0000,
            0x100_0000_0000,
        );
    }
    let scaled: u128 = magnitude * magnitude * 0x100_0000_0000;
    let q: u128 = scaled / s;
    let m = isqrt(q);
    proof {
        // m * m <= q <= scaled <= 2^104
        lemma_division_brackets(scaled as int, s as int);
        assert(0x10_0000_0000_0000int * 0x10_0000_0000_0000int
            == 0x100_0000_0000_0000_0000_0000_0000int);
        lemma_square_bound(m as int, 0x10_0000_0000_0000);
        if a == 0 {
            assert(magnitude * magnitude == 0) by (nonlinear_arith)
                requires
                    magnitude == 0,
            ;
            lemma_square_bound(m as int, 0);
        }
    }
    let c: i64 = if a >= 0 {
        m as i64
    } else {
        -(m as i64)
    };
    proof {
        let mi = m as int;
        lemma_scale_keeps_order(mi * mi, q as int, s as int);
        lemma_scale_keeps_order(q as int + 1, (mi + 1) * (mi + 1), s as int);
        assert(magnitude * magnitude == (a as int) * (a as int)) by (nonlinear_arith)
            requires
                magnitude == a || magnitude == -a,
        ;
        assert((c as int) * (c as int) == mi * mi) by (nonlinear_arith)
            requires
                c == mi || c == -mi,
        ;
        assert(abs_int(c as int) == mi);
        assert(scaled == (a as int) * (a as int) * (UNIT_LENGTH * UNIT_LENGTH));
        assert(mi * mi * s <= scaled);
        assert(scaled < (mi + 1) * (mi + 1) * s);
    }
    c
}

/// The plane that slot `i` of the lane groups of plane `k` holds.
pub open spec fn lane_plane(
    normals: [SimdVec3X4; 6],
    distances: [SimdI64x4; 6],
    k: int,
    i: int,
) -> Plane {
    Plane { normal: normals[k].slot(i), offset: distances[k].slot(i) }
}

/// A component of a normalized normal is `UNIT_LENGTH` at most.
proof fn lemma_unit_component_bounded(a: int, s: int, c: int)
    by (nonlinear_arith)
    requires
        is_unit_component(a, s, c),
        s > 0,
        0 <= a * a <= s,
        UNIT_LENGTH == 1_048_576,
    ensures
        -UNIT_LENGTH <= c <= UNIT_LENGTH,
{
    assert(c * c * s <= s * (UNIT_LENGTH * UNIT_LENGTH));
    assert(c * c <= UNIT_LENGTH * UNIT_LENGTH);
}

/// The four entries of plane `k` of a matrix before it is normalized.
fn raw_plane_at(m: &[[i32; 4]; 4], k: usize) -> (r: (i64, i64, i64, i64))
    requires
        k < 6,
    ensures
        raw_plane(*m, k as int) == (Plane {
            normal: Point { x: r.0 as int, y: r.1 as int, z: r.2 as int },
            offset: r.3 as int,
        }),
        -row_bound() <= r.0 <= row_bound(),
        -row_bound() <= r.1 <= row_bound(),
        -row_bound() <= r.2 <= row_bound(),
        -row_bound() <= r.3 <= row_bound(),
{
    let r3 = &m[3];
    if k == 5 {
        let r2 = &m[2];
        (r2[0] as i64, r2[1] as i64, r2[2] as i64, r2[3] as i64)
    } else {
        let other = &m[k / 2];
        if k % 2 == 0 {
            (
                r3[0] as i64 + other[0] as i64,
                r3[1] as i64 + other[1] as i64,
                r3[2] as i64 + other[2] as i64,
                r3[3] as i64 + other[3] as i64,
            )
        } else {
            (
                r3[0] as i64 - other[0] as i64,
                r3[1] as i64 - other[1] as i64,
                r3[2] as i64 - other[2] as i64,
                r3[3] as i64 - other[3] as i64,
            )
        }
    }
}

/// Derives the six planes of the frustum of a row-major view-projection
/// matrix: left, right, bottom, top, near and far.
///
/// The entries of the matrix are integers in a unit of the caller's choice.
/// Each plane is a sum or a difference of two rows (see `raw_plane`), scaled
/// so that its normal has the length `UNIT_LENGTH`, with every entry rounded
/// towards zero. Each normal is handed back in all four slots of a batch,
/// each offset in all four slots of a lane group.
///
/// A plane whose normal comes out as the zero vector cannot be normalized.
/// It is replaced by the plane with normal zero and offset zero, which
/// rejects no box.
pub fn extract_frustum_planes(view_projection: &[[i32; 4]; 4]) -> (planes: (
    [SimdVec3X4; 6],
    [SimdI64x4; 6],
))
    ensures
        forall|k: int, i: int|
            0 <= k < 6 && 0 <= i < 4 ==> is_normalized(
                raw_plane(*view_projection, k),
                #[trigger] lane_plane(planes.0, planes.1, k, i),
            ),
        forall|i: int|
            0 <= i < 4 ==> #[trigger] slot_planes(planes.0, planes.1, i) == frustum_planes(
                *view_projection,
            ),
{
    let zero = IVec3::new(0, 0, 0);
    let mut normals = [SimdVec3X4::splat(zero);6];
    let mut distances = [SimdI64x4::splat(0);6];
    let mut k: usize = 0;
    while k < 6
        invariant
            k <= 6,
            zero@ == (Point { x: 0, y: 0, z: 0 }),
            forall|j: int, i: int|
                0 <= j < k && 0 <= i < 4 ==> is_normalized(
                    raw_plane(*view_projection, j),
                    #[trigger] lane_plane(normals, distances, j, i),
                ),
        decreases 6 - k,
    {
        let (a, b, c, d) = raw_plane_at(view_projection, k);
        proof {
            lemma_square_of_bounded(a as int, row_bound());
            lemma_square_of_bounded(b as int, row_bound());
            lemma_square_of_bounded(c as int, row_bound());
            assert(row_bound() * row_bound() == 0x1_0000_0000_0000_0000);
        }
        let s: u128 = (a as i128 * a as i128) as u128 + (b as i128 * b as i128) as u128 + (c as i128
            * c as i128) as u128;
        let ghost raw = raw_plane(*view_projection, k as int);
        assert(s == dot(raw.normal, raw.normal));
        let (normal, offset) = if s == 0 {
            assert(is_normalized(raw, Plane { normal: zero@, offset: 0 }));
            (zero, 0i64)
        } else {
            let nx = unit_component(a, s);
            let ny = unit_component(b, s);
            let nz = unit_component(c, s);
            let nd = unit_component(d, s);
            proof {
                lemma_unit_component_bounded(a as int, s as int, nx as int);
                lemma_unit_component_bounded(b as int, s as int, ny as int);
                lemma_unit_component_bounded(c as int, s as int, nz as int);
            }
            let unit = IVec3::new(nx as i32, ny as i32, nz as i32);
            assert(unit@ == Point { x: nx as int, y: ny as int, z: nz as int });
            assert(is_normalized(raw, Plane { normal: unit@, offset: nd as int }));
            (unit, nd)
        };
        let normal_lanes = SimdVec3X4::splat(normal);
        let offset_lanes = SimdI64x4::splat(offset);
        let ghost old_normals = normals;
        let ghost old_distances = distances;
        normals[k] = normal_lanes;
        distances[k] = offset_lanes;
        proof {
            assert forall|j: int, i: int| 0 <= j < k + 1 && 0 <= i < 4 implies is_normalized(
                raw_plane(*view_projection, j),
                #[trigger] lane_plane(normals, distances, j, i),
            ) by {
                if j < k {
                    assert(lane_plane(normals, distances, j, i) == lane_plane(
                        old_normals,
                        old_distances,
                        j,
                        i,
                    ));
                } else {
                    assert(normals[j] == normal_lanes);
                    assert(distances[j] == offset_lanes);
                    assert(normal_lanes.slot(i) == normal@);
                    assert(offset_lanes.slot(i) == offset);
                    assert(lane_plane(normals, distances, j, i) == (Plane {
                        normal: normal@,
                        offset: offset as int,
                    }));
                    assert(raw_plane(*view_projection, j) == raw);
                    assert(is_normalized(raw, Plane { normal: normal@, offset: offset as int }));
                }
            }
        }
        k += 1;
    }
    proof {
        assert forall|i: int| 0 <= i < 4 implies #[trigger] slot_planes(normals, distances, i)
            == frustum_planes(*view_projection) by {
            let held = slot_planes(normals, distances, i);
            let wanted = frustum_planes(*view_projection);
            assert forall|k: int| 0 <= k < 6 implies held[k] == wanted[k] by {
                let raw = raw_plane(*view_projection, k);
                assert(is_normalized(raw, lane_plane(normals, distances, k, i)));
                lemma_normalized_unique(raw, held[k], normalized_plane(raw));
            }
            assert(held =~= wanted);
        }
    }
    (normals, distances)
}

/// The six planes that the boxes in slot `i` of a batch are tested against.
pub open spec fn slot_planes(normals: [SimdVec3X4; 6], distances: [SimdI64x4; 6], i: int) -> Seq<
    Plane,
> {
    Seq::new(6, |k: int| lane_plane(normals, distances, k, i))
}

/// The center and the half extents of the object that slot `i` of the batch
/// starting at `start` holds: object `start + i`, or a box without size at
/// the origin where the objects have run out.
pub open spec fn packed_object(objects: Seq<(IVec3, IVec3)>, start: int, i: int) -> (Point, Point) {
    if 0 <= start + i < objects.len() {
        (objects[start + i].0@, objects[start + i].1@)
    } else {
        (Point { x: 0, y: 0, z: 0 }, Point { x: 0, y: 0, z: 0 })
    }
}

/// Packs the first four of the entities, each a center with its half
/// extents, into one batch. Slots for which no entity is left hold a box
/// without size at the origin.
pub fn pack_aabbs_to_simd(entities: &[(IVec3, IVec3)], path: SimdPath) -> (batch: SimdAabbX4)
    ensures
        forall|i: int|
            0 <= i < 4 ==> #[trigger] batch.slot_min(i) == point_sub(
                packed_object(entities@, 0, i).0,
                packed_object(entities@, 0, i).1,
            ),
        forall|i: int|
            0 <= i < 4 ==> #[trigger] batch.slot_max(i) == point_add(
                packed_object(entities@, 0, i).0,
                packed_object(entities@, 0, i).1,
            ),
{
    pack_from(entities, 0, path)
}

/// Packs the four entities from `start` on into one batch.
fn pack_from(entities: &[(IVec3, IVec3)], start: usize, path: SimdPath) -> (batch: SimdAabbX4)
    requires
        start <= entities@.len(),
    ensures
        forall|i: int|
            0 <= i < 4 ==> #[trigger] batch.slot_min(i) == point_sub(
                packed_object(entities@, start as int, i).0,
                packed_object(entities@, start as int, i).1,
            ),
        forall|i: int|
            0 <= i < 4 ==> #[trigger] batch.slot_max(i) == point_add(
                packed_object(entities@, start as int, i).0,
                packed_object(entities@, start as int, i).1,
            ),
{
    let e0 = entity_or_padding(entities, start, 0);
    let e1 = entity_or_padding(entities, start, 1);
    let e2 = entity_or_padding(entities, start, 2);
    let e3 = entity_or_padding(entities, start, 3);
    let centers = SimdVec3X4::from_vec3s(e0.0, e1.0, e2.0, e3.0);
    let extents = SimdVec3X4::from_vec3s(e0.1, e1.1, e2.1, e3.1);
    SimdAabbX4::from_centers_and_extents(centers, extents, path)
}

/// Entity `start + i`, or the padding where there is none.
fn entity_or_padding(entities: &[(IVec3, IVec3)], start: usize, i: usize) -> (e: (IVec3, IVec3))
    requires
        start <= entities@.len(),
        i < 4,
    ensures
        (e.0@, e.1@) == packed_object(entities@, start as int, i as int),
{
    if entities.len() - start > i {
        entities[start + i]
    } else {
        (IVec3::new(0, 0, 0), IVec3::new(0, 0, 0))
    }
}

/// Tests the four boxes of a batch against the six planes. A slot is true
/// where no plane rejects its box.
pub fn cull_batch(
    batch: &SimdAabbX4,
    frustum_normals: &[SimdVec3X4; 6],
    frustum_distances: &[SimdI64x4; 6],
    path: SimdPath,
) -> (visible: [bool; 4])
    ensures
        forall|i: int|
            0 <= i < 4 ==> #[trigger] visible[i] == box_visible(
                batch.slot_min(i),
                batch.slot_max(i),
                slot_planes(*frustum_normals, *frustum_distances, i),
            ),
{
    let mut visible = [true;4];
    let mut k: usize = 0;
    while k < 6
        invariant
            k <= 6,
            forall|i: int|
                0 <= i < 4 ==> #[trigger] visible[i] == box_visible(
                    batch.slot_min(i),
                    batch.slot_max(i),
                    slot_planes(*frustum_normals, *frustum_distances, i).take(k as int),
                ),
        decreases 6 - k,
    {
        let passes = batch.plane_test(&frustum_normals[k], &frustum_distances[k], path);
        let ghost before = visible;
        let mut i: usize = 0;
        while i < 4
            invariant
                i <= 4,
                forall|j: int| 0 <= j < i ==> #[trigger] visible[j] == (before[j] && passes[j]),
                forall|j: int| i <= j < 4 ==> #[trigger] visible[j] == before[j],
            decreases 4 - i,
        {
            visible[i] = visible[i] && passes[i];
            i += 1;
        }
        proof {
            assert forall|i: int| 0 <= i < 4 implies #[trigger] visible[i] == box_visible(
                batch.slot_min(i),
                batch.slot_max(i),
                slot_planes(*frustum_normals, *frustum_distances, i).take(k as int + 1),
            ) by {
                let planes = slot_planes(*frustum_normals, *frustum_distances, i);
                let shorter = planes.take(k as int);
                let longer = planes.take(k as int + 1);
                assert(visible[i] == (before[i] && passes[i]));
                assert(longer[k as int] == lane_plane(
                    *frustum_normals,
                    *frustum_distances,
                    k as int,
                    i,
                ));
                if box_visible(batch.slot_min(i), batch.slot_max(i), longer) {
                    assert forall|j: int| 0 <= j < shorter.len() implies box_passes(
                        batch.slot_min(i),
                        batch.slot_max(i),
                        #[trigger] shorter[j],
                    ) by {
                        assert(shorter[j] == longer[j]);
                    }
                }
                if before[i] && passes[i] {
                    assert forall|j: int| 0 <= j < longer.len() implies box_passes(
                        batch.slot_min(i),
                        batch.slot_max(i),
                        #[trigger] longer[j],
                    ) by {
                        if j < k {
                            assert(shorter[j] == longer[j]);
                        }
                    }
                }
            }
        }
        k += 1;
    }
    proof {
        assert forall|i: int| 0 <= i < 4 implies slot_planes(
            *frustum_normals,
            *frustum_distances,
            i,
        ).take(6) == slot_planes(*frustum_normals, *frustum_distances, i) by {}
    }
    visible
}

/// What culling a list of batches yields: four flags for each batch, in the
/// order of the batches and of their slots.
pub open spec fn cull_batches_spec(
    aabbs: Seq<SimdAabbX4>,
    normals: [SimdVec3X4; 6],
    distances: [SimdI64x4; 6],
) -> Seq<bool> {
    Seq::new(
        4 * aabbs.len(),
        |j: int|
            box_visible(
                aabbs[j / 4].slot_min(j % 4),
                aabbs[j / 4].slot_max(j % 4),
                slot_planes(normals, distances, j % 4),
            ),
    )
}

/// Culls batches of four boxes against the six planes of a frustum.
///
/// The result holds four flags for each batch, in the order of the batches
/// and of their slots. A flag is true where no plane rejects the box. The
/// path has no influence on the result.
pub fn frustum_cull_aabbs(
    aabbs: &[SimdAabbX4],
    frustum_normals: &[SimdVec3X4; 6],
    frustum_distances: &[SimdI64x4; 6],
    path: SimdPath,
) -> (visible: Vec<bool>)
    ensures
        visible@ == cull_batches_spec(aabbs@, *frustum_normals, *frustum_distances),
{
    let mut visible: Vec<bool> = Vec::new();
    let mut b: usize = 0;
    while b < aabbs.len()
        invariant
            b <= aabbs@.len(),
            visible@.len() == 4 * b,
            forall|j: int|
                0 <= j < 4 * b ==> visible@[j] == #[trigger] cull_batches_spec(
                    aabbs@,
                    *frustum_normals,
                    *frustum_distances,
                )[j],
        decreases aabbs@.len() - b,
    {
        let flags = cull_batch(&aabbs[b], frustum_normals, frustum_distances, path);
        let mut i: usize = 0;
        while i < 4
            invariant
                i <= 4,
                b < aabbs@.len(),
                visible@.len() == 4 * b + i,
                forall|j: int|
                    0 <= j < 4 * b + i ==> visible@[j] == #[trigger] cull_batches_spec(
                        aabbs@,
                        *frustum_normals,
                        *frustum_distances,
                    )[j],
                forall|i: int|
                    0 <= i < 4 ==> #[trigger] flags[i] == box_visible(
                        aabbs@[b as int].slot_min(i),
                        aabbs@[b as int].slot_max(i),
                        slot_planes(*frustum_normals, *frustum_distances, i),
                    ),
            decreases 4 - i,
        {
            proof {
                let j = 4 * b + i;
                assert(j / 4 == b as int && j % 4 == i as int);
            }
            visible.push(flags[i]);
            i += 1;
        }
        b += 1;
    }
    visible
}

/// What culling a list of objects yields: one flag for each object, in the
/// order of the objects. Object `j` is tested against the planes in slot
/// `j % 4`, the slot it is packed into.
pub open spec fn cull_objects_spec(
    objects: Seq<(IVec3, IVec3)>,
    normals: [SimdVec3X4; 6],
    distances: [SimdI64x4; 6],
) -> Seq<bool> {
    Seq::new(
        objects.len(),
        |j: int| object_visible(objects[j].0@, objects[j].1@, slot_planes(normals, distances, j % 4)),
    )
}

/// Whether `visible` is what culling the objects on the given path must
/// yield. The path does not enter into it.
pub open spec fn is_cull_result(
    objects: Seq<(IVec3, IVec3)>,
    normals: [SimdVec3X4; 6],
    distances: [SimdI64x4; 6],
    path: SimdPath,
    visible: Seq<bool>,
) -> bool {
    visible == cull_objects_spec(objects, normals, distances)
}

/// Culls a list of objects, each a center with its half extents, against
/// the six planes of a frustum.
///
/// The objects are packed four by four in the order they come in. Where the
/// last group is short of four, its free slots are filled with boxes
/// without size at the origin, whose results are thrown away. The result
/// holds one flag for each object, in the order of the objects: true where
/// the object survives all six planes. The path has no influence on the
/// result.
pub fn frustum_cull_objects(
    objects: &[(IVec3, IVec3)],
    frustum_normals: &[SimdVec3X4; 6],
    frustum_distances: &[SimdI64x4; 6],
    path: SimdPath,
) -> (visible: Vec<bool>)
    ensures
        is_cull_result(objects@, *frustum_normals, *frustum_distances, path, visible@),
        visible@.len() == objects@.len(),
{
    let n = objects.len();
    let mut visible: Vec<bool> = Vec::new();
    let mut start: usize = 0;
    while start < n
        invariant
            n == objects@.len(),
            start <= n,
            start % 4 == 0 || start == n,
            visible@.len() == start,
            forall|j: int|
                0 <= j < start ==> visible@[j] == #[trigger] cull_objects_spec(
                    objects@,
                    *frustum_normals,
                    *frustum_distances,
                )[j],
        decreases n - start,
    {
        let count: usize = if n - start >= 4 {
            4
        } else {
            n - start
        };
        let batch = pack_from(objects, start, path);
        let flags = cull_batch(&batch, frustum_normals, frustum_distances, path);
        let mut i: usize = 0;
        while i < count
            invariant
                i <= count <= 4,
                n == objects@.len(),
                start + count <= n,
                start % 4 == 0,
                visible@.len() == start + i,
                forall|j: int|
                    0 <= j < start + i ==> visible@[j] == #[trigger] cull_objects_spec(
                        objects@,
                        *frustum_normals,
                        *frustum_distances,
                    )[j],
                forall|i: int|
                    0 <= i < 4 ==> #[trigger] flags[i] == box_visible(
                        batch.slot_min(i),
                        batch.slot_max(i),
                        slot_planes(*frustum_normals, *frustum_distances, i),
                    ),
                forall|i: int|
                    0 <= i < 4 ==> #[trigger] batch.slot_min(i) == point_sub(
                        packed_object(objects@, start as int, i).0,
                        packed_object(objects@, start as int, i).1,
                    ),
                forall|i: int|
                    0 <= i < 4 ==> #[trigger] batch.slot_max(i) == point_add(
                        packed_object(objects@, start as int, i).0,
                        packed_object(objects@, start as int, i).1,
                    ),
            decreases count - i,
        {
            proof {
                let j = start + i;
                let planes = slot_planes(*frustum_normals, *frustum_distances, i as int);
                let center = objects@[j].0@;
                let half = objects@[j].1@;
                assert(j % 4 == i as int);
                assert(packed_object(objects@, start as int, i as int) == (center, half));
                assert(batch.slot_min(i as int) == point_sub(center, half));
                assert(batch.slot_max(i as int) == point_add(center, half));
                assert(box_visible(point_sub(center, half), point_add(center, half), planes)
                    == object_visible(center, half, planes)) by {
                    lemma_visible_box_of_object(center, half, planes);
                }
            }
            visible.push(flags[i]);
            i += 1;
        }
        start = start + count;
    }
    assert(visible@ =~= cull_objects_spec(objects@, *frustum_normals, *frustum_distances));
    visible
}

/// What one run of the visibility system has counted.
#[derive(Debug, Clone, Copy, PartialEq, Eq)]
pub struct SimdVisibilityStats {
    /// Objects tested, each counted once for every view.
    pub entities_checked: usize,
    /// Objects found visible, each counted once for every view that sees it.
    pub entities_visible: usize,
    /// Batches of four that were tested.
    pub simd_batches: usize,
    /// The path the batches ran on.
    pub simd_path: SimdPath,
    /// The time the run took, in microseconds, as the caller measured it.
    pub frame_time_us: u64,
}

impl Default for SimdVisibilityStats {
    fn default() -> (stats: Self)
        ensures
            stats == (SimdVisibilityStats {
                entities_checked: 0,
                entities_visible: 0,
                simd_batches: 0,
                simd_path: SimdPath::Scalar,
                frame_time_us: 0,
            }),
    {
        SimdVisibilityStats {
            entities_checked: 0,
            entities_visible: 0,
            simd_batches: 0,
            simd_path: SimdPath::Scalar,
            frame_time_us: 0,
        }
    }
}

/// How many of the flags are true.
pub open spec fn count_true(flags: Seq<bool>) -> nat
    decreases flags.len(),
{
    if flags.len() == 0 {
        0
    } else {
        count_true(flags.drop_last()) + if flags.last() {
            1nat
        } else {
            0nat
        }
    }
}

/// The number of batches of four that `n` objects fill, the last one
/// perhaps in part.
pub open spec fn batches_for(n: nat) -> nat {
    (n + 3) / 4
}

/// For each object, whether the frustum of the view-projection matrix `m`
/// sees it.
pub open spec fn visibility_in_view(m: [[i32; 4]; 4], objects: Seq<(IVec3, IVec3)>) -> Seq<bool> {
    Seq::new(
        objects.len(),
        |j: int| object_visible(objects[j].0@, objects[j].1@, frustum_planes(m)),
    )
}

/// The number of pairs of a view and an object that the view sees.
pub open spec fn visible_in_views(views: Seq<[[i32; 4]; 4]>, objects: Seq<(IVec3, IVec3)>) -> nat
    decreases views.len(),
{
    if views.len() == 0 {
        0
    } else {
        visible_in_views(views.drop_last(), objects) + count_true(
            visibility_in_view(views.last(), objects),
        )
    }
}

/// No more flags are true than there are flags.
pub proof fn lemma_count_true_bounded(flags: Seq<bool>)
    ensures
        count_true(flags) <= flags.len(),
    decreases flags.len(),
{
    if flags.len() > 0 {
        lemma_count_true_bounded(flags.drop_last());
    }
}

/// No view sees more objects than there are.
pub proof fn lemma_visible_in_views_bounded(
    views: Seq<[[i32; 4]; 4]>,
    objects: Seq<(IVec3, IVec3)>,
)
    ensures
        visible_in_views(views, objects) <= views.len() * objects.len(),
    decreases views.len(),
{
    if views.len() > 0 {
        lemma_visible_in_views_bounded(views.drop_last(), objects);
        lemma_count_true_bounded(visibility_in_view(views.last(), objects));
        assert((views.len() - 1) * objects.len() + objects.len() == views.len() * objects.len())
            by (nonlinear_arith);
    } else {
        assert(views.len() * objects.len() == 0) by (nonlinear_arith)
            requires
                views.len() == 0,
        ;
    }
}

/// Counts the flags that are true.
fn count_visible(flags: &Vec<bool>) -> (count: usize)
    ensures
        count == count_true(flags@),
{
    let mut count: usize = 0;
    let mut i: usize = 0;
    while i < flags.len()
        invariant
            i <= flags@.len(),
            count == count_true(flags@.take(i as int)),
            count <= i,
        decreases flags@.len() - i,
    {
        proof {
            assert(flags@.take(i as int + 1).drop_last() == flags@.take(i as int));
        }
        if flags[i] {
            count += 1;
        }
        i += 1;
    }
    proof {
        assert(flags@.take(flags@.len() as int) == flags@);
    }
    count
}

/// Runs the visibility test of every object for every view, and counts.
///
/// `views` holds the view-projection matrix of each active camera,
/// `entities` the center and the half extents of each object. For each view
/// the six planes are extracted and all objects are culled against them in
/// batches of four. The counts of the run replace those in `stats`; the
/// time is left for the caller to stamp.
pub fn simd_visibility_system(
    capabilities: &HeartOnSimdCapabilities,
    stats: &mut SimdVisibilityStats,
    views: &[[[i32; 4]; 4]],
    entities: &[(IVec3, IVec3)],
)
    requires
        views@.len() * entities@.len() <= usize::MAX,
    ensures
        final(stats).simd_path == capabilities.path,
        final(stats).entities_checked == views@.len() * entities@.len(),
        final(stats).simd_batches == views@.len() * batches_for(entities@.len()),
        final(stats).entities_visible == visible_in_views(views@, entities@),
        final(stats).frame_time_us == old(stats).frame_time_us,
{
    let n = entities.len();
    let batches = n / 4 + if n % 4 == 0 {
        0
    } else {
        1
    };
    assert(batches == batches_for(n as nat));
    let mut checked: usize = 0;
    let mut visible: usize = 0;
    let mut batch_count: usize = 0;
    let mut v: usize = 0;
    while v < views.len()
        invariant
            v <= views@.len(),
            n == entities@.len(),
            batches == batches_for(n as nat),
            views@.len() * entities@.len() <= usize::MAX,
            checked == v * n,
            batch_count == v * batches,
            visible == visible_in_views(views@.take(v as int), entities@),
        decreases views@.len() - v,
    {
        let (normals, distances) = extract_frustum_planes(&views[v]);
        let flags = frustum_cull_objects(entities, &normals, &distances, capabilities.path);
        let seen = count_visible(&flags);
        proof {
            let taken = views@.take(v as int + 1);
            assert(taken.drop_last() == views@.take(v as int));
            assert(taken.last() == views@[v as int]);
            let wanted = visibility_in_view(views@[v as int], entities@);
            assert forall|j: int| 0 <= j < n implies flags@[j] == wanted[j] by {
                assert(slot_planes(normals, distances, j % 4) == frustum_planes(views@[v as int]));
            }
            assert(flags@ =~= wanted);
            lemma_visible_in_views_bounded(taken, entities@);
            assert((v + 1) * n <= views@.len() * n) by (nonlinear_arith)
                requires
                    v + 1 <= views@.len(),
                    n >= 0,
            ;
            assert((v + 1) * n == v * n + n) by (nonlinear_arith);
            assert((v + 1) * batches == v * batches + batches) by (nonlinear_arith);
            assert((v + 1) * batches <= (v + 1) * n) by (nonlinear_arith)
                requires
                    batches <= n,
                    v >= 0,
            ;
            assert(taken.len() == v + 1);
        }
        checked = checked + n;
        batch_count = batch_count + batches;
        visible = visible + seen;
        v += 1;
    }
    proof {
        assert(views@.take(views@.len() as int) == views@);
    }
    stats.entities_checked = checked;
    stats.entities_visible = visible;
    stats.simd_batches = batch_count;
    stats.simd_path = capabilities.path;
}

} // verus!




