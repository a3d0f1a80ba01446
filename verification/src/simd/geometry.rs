//! Points, planes and boxes as mathematics knows them: the model in which
//! the results of culling are stated.
//!
//! Coordinates are integers without bounds here, so that nothing is rounded
//! and nothing overflows.

use vstd::prelude::*;

verus! {

/// A point or a direction in space, with exact integer coordinates.
pub struct Point {
    pub x: int,
    pub y: int,
    pub z: int,
}

/// A plane: the points `p` with `dot(normal, p) + offset == 0`. The normal
/// points to the side that is kept.
pub struct Plane {
    pub normal: Point,
    pub offset: int,
}

/// The sum of two vectors.
pub open spec fn point_add(a: Point, b: Point) -> Point {
    Point { x: a.x + b.x, y: a.y + b.y, z: a.z + b.z }
}

/// The difference of two vectors.
pub open spec fn point_sub(a: Point, b: Point) -> Point {
    Point { x: a.x - b.x, y: a.y - b.y, z: a.z - b.z }
}

/// The dot product of two vectors.
pub open spec fn dot(a: Point, b: Point) -> int {
    a.x * b.x + a.y * b.y + a.z * b.z
}

/// The magnitude of an integer.
pub open spec fn abs_int(v: int) -> int {
    if v >= 0 {
        v
    } else {
        -v
    }
}

/// The signed distance of the point `p` from a plane, in units of the
/// length of the plane's normal. It is zero on the plane and positive on the
/// side the normal points to.
pub open spec fn signed_distance(p: Point, plane: Plane) -> int {
    dot(p, plane.normal) + plane.offset
}

/// The radius of the projection of a box with the half extents `half` onto
/// the normal `n`, in units of the normal's length.
pub open spec fn projected_radius(half: Point, n: Point) -> int {
    abs_int(half.x * n.x) + abs_int(half.y * n.y) + abs_int(half.z * n.z)
}

/// Whether a plane lets an object pass, given by its center and its half
/// extents: `signed_distance + projected_radius >= 0`. An object that only
/// touches the plane passes.
pub open spec fn object_passes(center: Point, half: Point, plane: Plane) -> bool {
    signed_distance(center, plane) + projected_radius(half, plane.normal) >= 0
}

/// Whether an object survives all the planes.
pub open spec fn object_visible(center: Point, half: Point, planes: Seq<Plane>) -> bool {
    forall|k: int| 0 <= k < planes.len() ==> object_passes(center, half, #[trigger] planes[k])
}

/// For the box with corners `min` and `max`: twice the signed distance of its
/// center from a plane.
pub open spec fn doubled_distance(min: Point, max: Point, plane: Plane) -> int {
    (min.x + max.x) * plane.normal.x + (min.y + max.y) * plane.normal.y + (min.z + max.z)
        * plane.normal.z + 2 * plane.offset
}

/// For the box with corners `min` and `max`: twice the radius of its
/// projection onto the normal `n`.
pub open spec fn doubled_radius(min: Point, max: Point, n: Point) -> int {
    abs_int((max.x - min.x) * n.x) + abs_int((max.y - min.y) * n.y) + abs_int(
        (max.z - min.z) * n.z,
    )
}

/// Whether a plane lets the box with corners `min` and `max` pass: its
/// center's signed distance plus its projected radius is zero or more. A
/// box that only touches the plane passes.
///
/// Distance and radius are both taken twice, which spares the halving and
/// keeps the test exact.
pub open spec fn box_passes(min: Point, max: Point, plane: Plane) -> bool {
    doubled_distance(min, max, plane) + doubled_radius(min, max, plane.normal) >= 0
}

/// Whether none of the planes rejects the box with corners `min` and `max`.
pub open spec fn box_visible(min: Point, max: Point, planes: Seq<Plane>) -> bool {
    forall|k: int| 0 <= k < planes.len() ==> box_passes(min, max, #[trigger] planes[k])
}

/// Whether two boxes, each given by its corners, overlap or touch along
/// every axis.
pub open spec fn boxes_overlap(min_a: Point, max_a: Point, min_b: Point, max_b: Point) -> bool {
    &&& max_a.x >= min_b.x && min_a.x <= max_b.x
    &&& max_a.y >= min_b.y && min_a.y <= max_b.y
    &&& max_a.z >= min_b.z && min_a.z <= max_b.z
}

proof fn lemma_doubled_term(c: int, h: int, n: int)
    by (nonlinear_arith)
    ensures
        ((c - h) + (c + h)) * n == 2 * (c * n),
        abs_int(((c + h) - (c - h)) * n) == 2 * abs_int(h * n),
{
}

/// What the test of a box computes for a box built from a center and half
/// extents is the object's own test.
pub proof fn lemma_box_of_object(center: Point, half: Point, plane: Plane)
    ensures
        box_passes(point_sub(center, half), point_add(center, half), plane) == object_passes(
            center,
            half,
            plane,
        ),
{
    let n = plane.normal;
    lemma_doubled_term(center.x, half.x, n.x);
    lemma_doubled_term(center.y, half.y, n.y);
    lemma_doubled_term(center.z, half.z, n.z);
}

/// A box built from a center and half extents survives the planes exactly
/// when the object does.
pub proof fn lemma_visible_box_of_object(center: Point, half: Point, planes: Seq<Plane>)
    ensures
        box_visible(point_sub(center, half), point_add(center, half), planes) == object_visible(
            center,
            half,
            planes,
        ),
{
    assert forall|k: int| 0 <= k < planes.len() implies box_passes(
        point_sub(center, half),
        point_add(center, half),
        #[trigger] planes[k],
    ) == object_passes(center, half, planes[k]) by {
        lemma_box_of_object(center, half, planes[k]);
    }
}

} // verus!
