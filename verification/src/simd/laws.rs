//! What holds of culling and of path detection, whatever the input.

use vstd::prelude::*;
use super::geometry::{
    abs_int, box_passes, boxes_overlap, doubled_distance, doubled_radius, object_passes,
    object_visible, point_add, point_sub, projected_radius, signed_distance, Plane, Point,
};
use super::soa::{IVec3, SimdAabbX4, SimdVec3X4};
use super::types::SimdI64x4;
use super::visibility::{cull_objects_spec, is_cull_result, is_normalized, slot_planes, UNIT_LENGTH};
use super::{CpuFeatures, SimdPath};

verus! {

/// One of the eight corners of the box with the given center and half
/// extents: along each axis the half extent is added where the flag is set,
/// and taken off where it is not.
pub open spec fn object_corner(center: Point, half: Point, up_x: bool, up_y: bool, up_z: bool) -> Point {
    Point {
        x: if up_x {
            center.x + half.x
        } else {
            center.x - half.x
        },
        y: if up_y {
            center.y + half.y
        } else {
            center.y - half.y
        },
        z: if up_z {
            center.z + half.z
        } else {
            center.z - half.z
        },
    }
}

/// Whether every corner of the object lies on the plane or on the side its
/// normal points to.
pub open spec fn fully_inside(center: Point, half: Point, plane: Plane) -> bool {
    forall|up_x: bool, up_y: bool, up_z: bool|
        signed_distance(#[trigger] object_corner(center, half, up_x, up_y, up_z), plane) >= 0
}

/// Whether every corner of the object lies strictly on the side the plane's
/// normal points away from.
pub open spec fn fully_outside(center: Point, half: Point, plane: Plane) -> bool {
    forall|up_x: bool, up_y: bool, up_z: bool|
        signed_distance(#[trigger] object_corner(center, half, up_x, up_y, up_z), plane) < 0
}

proof fn lemma_axis_reach(c: int, h: int, n: int)
    by (nonlinear_arith)
    ensures
        h * n >= 0 ==> (c + h) * n == c * n + abs_int(h * n),
        h * n < 0 ==> (c - h) * n == c * n + abs_int(h * n),
{
}

/// The corner that reaches furthest along the normal is as far from the
/// plane as the center's distance and the projected radius together.
pub proof fn lemma_furthest_corner(center: Point, half: Point, plane: Plane) -> (corner: Point)
    ensures
        exists|up_x: bool, up_y: bool, up_z: bool|
            corner == #[trigger] object_corner(center, half, up_x, up_y, up_z),
        signed_distance(corner, plane) == signed_distance(center, plane) + projected_radius(
            half,
            plane.normal,
        ),
{
    let n = plane.normal;
    let up_x = half.x * n.x >= 0;
    let up_y = half.y * n.y >= 0;
    let up_z = half.z * n.z >= 0;
    lemma_axis_reach(center.x, half.x, n.x);
    lemma_axis_reach(center.y, half.y, n.y);
    lemma_axis_reach(center.z, half.z, n.z);
    object_corner(center, half, up_x, up_y, up_z)
}

/// One of the eight corners of the box that reaches from `min` to `max`:
/// along each axis the coordinate of `max` where the flag is set, and that
/// of `min` where it is not.
pub open spec fn box_corner(min: Point, max: Point, up_x: bool, up_y: bool, up_z: bool) -> Point {
    Point {
        x: if up_x {
            max.x
        } else {
            min.x
        },
        y: if up_y {
            max.y
        } else {
            min.y
        },
        z: if up_z {
            max.z
        } else {
            min.z
        },
    }
}

proof fn lemma_axis_doubled_reach(lo: int, hi: int, n: int)
    by (nonlinear_arith)
    ensures
        (hi - lo) * n >= 0 ==> 2 * (hi * n) == (lo + hi) * n + abs_int((hi - lo) * n),
        (hi - lo) * n < 0 ==> 2 * (lo * n) == (lo + hi) * n + abs_int((hi - lo) * n),
{
}

/// The corner of a box that reaches furthest along the normal has half the
/// signed distance that the batch test compares with zero.
pub proof fn lemma_furthest_box_corner(min: Point, max: Point, plane: Plane) -> (corner: Point)
    ensures
        exists|up_x: bool, up_y: bool, up_z: bool|
            corner == #[trigger] box_corner(min, max, up_x, up_y, up_z),
        2 * signed_distance(corner, plane) == doubled_distance(min, max, plane) + doubled_radius(
            min,
            max,
            plane.normal,
        ),
{
    let n = plane.normal;
    let up_x = (max.x - min.x) * n.x >= 0;
    let up_y = (max.y - min.y) * n.y >= 0;
    let up_z = (max.z - min.z) * n.z >= 0;
    lemma_axis_doubled_reach(min.x, max.x, n.x);
    lemma_axis_doubled_reach(min.y, max.y, n.y);
    lemma_axis_doubled_reach(min.z, max.z, n.z);
    box_corner(min, max, up_x, up_y, up_z)
}

/// A box all of whose corners are on a plane or inside it passes the batch
/// test against that plane.
pub proof fn law_box_inside_plane_passes(min: Point, max: Point, plane: Plane)
    requires
        forall|up_x: bool, up_y: bool, up_z: bool|
            signed_distance(#[trigger] box_corner(min, max, up_x, up_y, up_z), plane) >= 0,
    ensures
        box_passes(min, max, plane),
{
    let corner = lemma_furthest_box_corner(min, max, plane);
}

/// A box all of whose corners are outside a plane fails the batch test
/// against that plane.
pub proof fn law_box_outside_plane_rejected(min: Point, max: Point, plane: Plane)
    requires
        forall|up_x: bool, up_y: bool, up_z: bool|
            signed_distance(#[trigger] box_corner(min, max, up_x, up_y, up_z), plane) < 0,
    ensures
        !box_passes(min, max, plane),
{
    let corner = lemma_furthest_box_corner(min, max, plane);
}

/// A box built from a center and from half extents that are not negative is
/// a box: along no axis does its largest corner lie below its smallest.
pub proof fn law_box_of_extents_is_valid(
    batch: SimdAabbX4,
    centers: SimdVec3X4,
    extents: SimdVec3X4,
    i: int,
)
    requires
        0 <= i < 4,
        batch.slot_min(i) == point_sub(centers.slot(i), extents.slot(i)),
        batch.slot_max(i) == point_add(centers.slot(i), extents.slot(i)),
        extents.slot(i).x >= 0,
        extents.slot(i).y >= 0,
        extents.slot(i).z >= 0,
    ensures
        batch.slot_valid(i),
{
}

/// Two valid boxes overlap by the batch's reckoning exactly when there is
/// a point that lies in both.
pub proof fn law_overlap_shares_a_point(min_a: Point, max_a: Point, min_b: Point, max_b: Point)
    requires
        min_a.x <= max_a.x && min_a.y <= max_a.y && min_a.z <= max_a.z,
        min_b.x <= max_b.x && min_b.y <= max_b.y && min_b.z <= max_b.z,
    ensures
        boxes_overlap(min_a, max_a, min_b, max_b) <==> exists|p: Point|
            #[trigger] point_in_box(p, min_a, max_a) && point_in_box(p, min_b, max_b),
{
    if boxes_overlap(min_a, max_a, min_b, max_b) {
        let p = Point {
            x: if min_a.x >= min_b.x {
                min_a.x
            } else {
                min_b.x
            },
            y: if min_a.y >= min_b.y {
                min_a.y
            } else {
                min_b.y
            },
            z: if min_a.z >= min_b.z {
                min_a.z
            } else {
                min_b.z
            },
        };
        assert(point_in_box(p, min_a, max_a) && point_in_box(p, min_b, max_b));
    }
}

/// Whether the point `p` lies in the box with corners `min` and `max`, its
/// faces included.
pub open spec fn point_in_box(p: Point, min: Point, max: Point) -> bool {
    &&& min.x <= p.x <= max.x
    &&& min.y <= p.y <= max.y
    &&& min.z <= p.z <= max.z
}

/// Between the two forms of a box nothing is lost: a batch built from
/// centers and half extents has centers and half extents, and they are the
/// ones it was built from.
pub proof fn law_box_forms_round_trip(
    batch: SimdAabbX4,
    centers: SimdVec3X4,
    extents: SimdVec3X4,
    back_centers: SimdVec3X4,
    back_extents: SimdVec3X4,
    i: int,
)
    requires
        0 <= i < 4,
        batch.slot_min(i) == point_sub(centers.slot(i), extents.slot(i)),
        batch.slot_max(i) == point_add(centers.slot(i), extents.slot(i)),
        batch.slot_min(i) == point_sub(back_centers.slot(i), back_extents.slot(i)),
        batch.slot_max(i) == point_add(back_centers.slot(i), back_extents.slot(i)),
    ensures
        batch.slot_has_center(i),
        back_centers.slot(i) == centers.slot(i),
        back_extents.slot(i) == extents.slot(i),
{
}

/// An object all of whose corners are inside a plane passes that plane.
pub proof fn law_inside_plane_passes(center: Point, half: Point, plane: Plane)
    requires
        fully_inside(center, half, plane),
    ensures
        object_passes(center, half, plane),
{
    let corner = lemma_furthest_corner(center, half, plane);
}

/// An object all of whose corners are outside a plane is rejected by that
/// plane.
pub proof fn law_outside_plane_rejected(center: Point, half: Point, plane: Plane)
    requires
        fully_outside(center, half, plane),
    ensures
        !object_passes(center, half, plane),
{
    let corner = lemma_furthest_corner(center, half, plane);
}

/// An object that is fully inside the frustum on all its planes is visible.
pub proof fn law_inside_is_visible(center: Point, half: Point, planes: Seq<Plane>)
    requires
        forall|k: int| 0 <= k < planes.len() ==> fully_inside(center, half, #[trigger] planes[k]),
    ensures
        object_visible(center, half, planes),
{
    assert forall|k: int| 0 <= k < planes.len() implies object_passes(
        center,
        half,
        #[trigger] planes[k],
    ) by {
        law_inside_plane_passes(center, half, planes[k]);
    }
}

/// An object that is fully outside any single plane of the frustum is
/// invisible.
pub proof fn law_outside_is_invisible(center: Point, half: Point, planes: Seq<Plane>, k: int)
    requires
        0 <= k < planes.len(),
        fully_outside(center, half, planes[k]),
    ensures
        !object_visible(center, half, planes),
{
    law_outside_plane_rejected(center, half, planes[k]);
}

/// An object that just touches a plane passes it: a signed distance and a
/// projected radius that cancel are not a rejection.
pub proof fn law_touching_passes(center: Point, half: Point, plane: Plane)
    requires
        signed_distance(center, plane) + projected_radius(half, plane.normal) == 0,
    ensures
        object_passes(center, half, plane),
{
}

/// A box that just touches a plane passes the batch test.
pub proof fn law_touching_box_passes(min: Point, max: Point, plane: Plane)
    requires
        doubled_distance(min, max, plane) + doubled_radius(min, max, plane.normal) == 0,
    ensures
        box_passes(min, max, plane),
{
}

/// Culling keeps length and order: there is one flag for each object, and
/// flag `j` is the verdict on object `j`.
pub proof fn law_cull_keeps_order(
    objects: Seq<(IVec3, IVec3)>,
    normals: [SimdVec3X4; 6],
    distances: [SimdI64x4; 6],
    path: SimdPath,
    visible: Seq<bool>,
    j: int,
)
    requires
        is_cull_result(objects, normals, distances, path, visible),
        0 <= j < objects.len(),
    ensures
        visible.len() == objects.len(),
        visible[j] == object_visible(
            objects[j].0@,
            objects[j].1@,
            slot_planes(normals, distances, j % 4),
        ),
{
}

/// Where every slot holds the same six planes, as the extracted planes of a
/// frustum do, the verdict on an object does not depend on the slot it is
/// packed into.
pub proof fn law_cull_ignores_packing(
    objects: Seq<(IVec3, IVec3)>,
    normals: [SimdVec3X4; 6],
    distances: [SimdI64x4; 6],
    path: SimdPath,
    visible: Seq<bool>,
    planes: Seq<Plane>,
    j: int,
)
    requires
        is_cull_result(objects, normals, distances, path, visible),
        forall|i: int| 0 <= i < 4 ==> #[trigger] slot_planes(normals, distances, i) == planes,
        0 <= j < objects.len(),
    ensures
        visible[j] == object_visible(objects[j].0@, objects[j].1@, planes),
{
    assert(slot_planes(normals, distances, j % 4) == planes);
}

/// What follows an object in the list has no influence on its flag: neither
/// the objects after it nor the padding of the last batch.
pub proof fn law_cull_ignores_what_follows(
    objects: Seq<(IVec3, IVec3)>,
    more: Seq<(IVec3, IVec3)>,
    normals: [SimdVec3X4; 6],
    distances: [SimdI64x4; 6],
    j: int,
)
    requires
        0 <= j < objects.len(),
    ensures
        cull_objects_spec(objects + more, normals, distances)[j] == cull_objects_spec(
            objects,
            normals,
            distances,
        )[j],
{
}

/// A list of objects may be culled in parts, by several workers say: where
/// the first part fills whole batches, the flags of the parts, put together,
/// are the flags of the whole list.
pub proof fn law_cull_of_parts(
    first: Seq<(IVec3, IVec3)>,
    second: Seq<(IVec3, IVec3)>,
    normals: [SimdVec3X4; 6],
    distances: [SimdI64x4; 6],
)
    requires
        first.len() % 4 == 0,
    ensures
        cull_objects_spec(first + second, normals, distances) == cull_objects_spec(
            first,
            normals,
            distances,
        ) + cull_objects_spec(second, normals, distances),
{
    let whole = cull_objects_spec(first + second, normals, distances);
    let parts = cull_objects_spec(first, normals, distances) + cull_objects_spec(
        second,
        normals,
        distances,
    );
    assert forall|j: int| 0 <= j < whole.len() implies whole[j] == parts[j] by {
        if j >= first.len() {
            assert((j - first.len()) % 4 == j % 4);
        }
    }
    assert(whole =~= parts);
}

/// The scalar path and every other path yield the same flags.
pub proof fn law_paths_agree(
    objects: Seq<(IVec3, IVec3)>,
    normals: [SimdVec3X4; 6],
    distances: [SimdI64x4; 6],
    path: SimdPath,
    on_scalar: Seq<bool>,
    on_path: Seq<bool>,
)
    requires
        is_cull_result(objects, normals, distances, SimdPath::Scalar, on_scalar),
        is_cull_result(objects, normals, distances, path, on_path),
    ensures
        on_scalar == on_path,
{
}

/// Culling the same input twice yields the same flags twice.
pub proof fn law_cull_repeatable(
    objects: Seq<(IVec3, IVec3)>,
    normals: [SimdVec3X4; 6],
    distances: [SimdI64x4; 6],
    path: SimdPath,
    first: Seq<bool>,
    second: Seq<bool>,
)
    requires
        is_cull_result(objects, normals, distances, path, first),
        is_cull_result(objects, normals, distances, path, second),
    ensures
        first == second,
{
}

proof fn lemma_three_squares_below(x: int, y: int, z: int, a: int, b: int, c: int, s: int, u: int)
    by (nonlinear_arith)
    requires
        s > 0,
        s == a * a + b * b + c * c,
        x * x * s <= a * a * u,
        y * y * s <= b * b * u,
        z * z * s <= c * c * u,
    ensures
        x * x + y * y + z * z <= u,
{
    assert((x * x + y * y + z * z) * s <= u * s);
}

proof fn lemma_three_squares_above(x: int, y: int, z: int, a: int, b: int, c: int, s: int, u: int)
    by (nonlinear_arith)
    requires
        s > 0,
        s == a * a + b * b + c * c,
        a * a * u < x * x * s,
        b * b * u < y * y * s,
        c * c * u < z * z * s,
    ensures
        u < x * x + y * y + z * z,
{
    assert(u * s < (x * x + y * y + z * z) * s);
}

/// The normal of a normalized plane has the length `UNIT_LENGTH`, up to the
/// rounding of its coordinates: it is no longer, and it would be longer if
/// each coordinate lay one step further from zero.
pub proof fn law_normalized_length(raw: Plane, unit: Plane)
    requires
        is_normalized(raw, unit),
        raw.normal != (Point { x: 0, y: 0, z: 0 }),
    ensures
        unit.normal.x * unit.normal.x + unit.normal.y * unit.normal.y + unit.normal.z
            * unit.normal.z <= UNIT_LENGTH * UNIT_LENGTH,
        UNIT_LENGTH * UNIT_LENGTH < (abs_int(unit.normal.x) + 1) * (abs_int(unit.normal.x) + 1) + (
        abs_int(unit.normal.y) + 1) * (abs_int(unit.normal.y) + 1) + (abs_int(unit.normal.z) + 1)
            * (abs_int(unit.normal.z) + 1),
{
    let n = raw.normal;
    let s = n.x * n.x + n.y * n.y + n.z * n.z;
    assert(s > 0) by (nonlinear_arith)
        requires
            s == n.x * n.x + n.y * n.y + n.z * n.z,
            n.x != 0 || n.y != 0 || n.z != 0,
    ;
    let u = UNIT_LENGTH * UNIT_LENGTH;
    lemma_three_squares_below(unit.normal.x, unit.normal.y, unit.normal.z, n.x, n.y, n.z, s, u);
    lemma_three_squares_above(
        abs_int(unit.normal.x) + 1,
        abs_int(unit.normal.y) + 1,
        abs_int(unit.normal.z) + 1,
        n.x,
        n.y,
        n.z,
        s,
        u,
    );
}

/// A plane whose normal is the zero vector is normalized to the plane that
/// lets every object pass.
pub proof fn law_degenerate_plane_rejects_nothing(raw: Plane, unit: Plane, center: Point, half: Point)
    requires
        is_normalized(raw, unit),
        raw.normal == (Point { x: 0, y: 0, z: 0 }),
    ensures
        object_passes(center, half, unit),
{
    assert(projected_radius(half, unit.normal) == 0) by (nonlinear_arith)
        requires
            unit.normal == (Point { x: 0, y: 0, z: 0 }),
            projected_radius(half, unit.normal) == abs_int(half.x * unit.normal.x) + abs_int(
                half.y * unit.normal.y,
            ) + abs_int(half.z * unit.normal.z),
    ;
    assert(signed_distance(center, unit) == 0) by (nonlinear_arith)
        requires
            unit.normal == (Point { x: 0, y: 0, z: 0 }),
            unit.offset == 0,
            signed_distance(center, unit) == center.x * unit.normal.x + center.y * unit.normal.y
                + center.z * unit.normal.z + unit.offset,
    ;
}

/// Detection is a function of the features: what it found once it finds
/// again.
pub proof fn law_detect_repeatable(features: CpuFeatures, first: SimdPath, second: SimdPath)
    requires
        first == SimdPath::best(features),
        second == SimdPath::best(features),
    ensures
        first == second,
{
}

/// A machine that advertises no vector extension gets the scalar path.
pub proof fn law_detect_falls_back_to_scalar(features: CpuFeatures)
    requires
        !features.avx512f,
        !features.avx2,
        !features.sse42,
        !features.neon,
        !features.simd128,
    ensures
        SimdPath::best(features) == SimdPath::Scalar,
{
}

/// The detected path is the one available path that no other available
/// path is preferred to.
pub proof fn law_detect_prefers(features: CpuFeatures, path: SimdPath)
    requires
        path.available(features),
        forall|other: SimdPath| other.available(features) ==> other.rank() <= path.rank(),
    ensures
        path == SimdPath::best(features),
{
    let best = SimdPath::best(features);
    assert(best.available(features));
    assert(best.rank() <= path.rank());
}

} // verus!
