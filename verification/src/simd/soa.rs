//! Structure-of-Arrays (SoA) types for SIMD operations.
//!
//! Four points, or four boxes, are stored coordinate by coordinate: one lane
//! group holds the four x values, the next the four y values, and so on.
//! Slot `i` of every lane group belongs to item `i`.

use vstd::prelude::*;
use super::geometry::{abs_int, box_passes, boxes_overlap, dot, point_add, point_sub, Plane, Point};
use super::types::{fits_i128, SimdI128x4, SimdI32x4, SimdI64x4};
use super::SimdPath;

verus! {

/// Whether each coordinate of a point can be held in 32 bits.
pub open spec fn fits_ivec3(p: Point) -> bool {
    &&& i32::MIN <= p.x <= i32::MAX
    &&& i32::MIN <= p.y <= i32::MAX
    &&& i32::MIN <= p.z <= i32::MAX
}

/// A point or a direction on the 32-bit grid.
#[derive(Clone, Copy, Debug, PartialEq, Eq, Structural)]
pub struct IVec3 {
    pub x: i32,
    pub y: i32,
    pub z: i32,
}

impl View for IVec3 {
    type V = Point;

    open spec fn view(&self) -> Point {
        Point { x: self.x as int, y: self.y as int, z: self.z as int }
    }
}

impl IVec3 {
    /// The vector with the given coordinates.
    pub fn new(x: i32, y: i32, z: i32) -> (v: Self)
        ensures
            v.x == x,
            v.y == y,
            v.z == z,
    {
        IVec3 { x, y, z }
    }
}

/// An axis-aligned box, given by its center and by half its size along each
/// axis.
#[derive(Clone, Copy, Debug, PartialEq, Eq, Structural)]
pub struct Aabb {
    pub center: IVec3,
    pub half_extents: IVec3,
}

impl Aabb {
    /// The corner with the smallest coordinates.
    pub open spec fn min_spec(self) -> Point {
        Point {
            x: self.center.x - self.half_extents.x,
            y: self.center.y - self.half_extents.y,
            z: self.center.z - self.half_extents.z,
        }
    }

    /// The corner with the largest coordinates.
    pub open spec fn max_spec(self) -> Point {
        Point {
            x: self.center.x + self.half_extents.x,
            y: self.center.y + self.half_extents.y,
            z: self.center.z + self.half_extents.z,
        }
    }
}

/// 4 Vectors stored in SoA format (xxxx, yyyy, zzzz).
#[derive(Clone, Copy, Debug, PartialEq, Eq)]
pub struct SimdVec3X4 {
    pub x: SimdI32x4,
    pub y: SimdI32x4,
    pub z: SimdI32x4,
}

impl SimdVec3X4 {
    /// The vector held in slot `i`.
    pub open spec fn slot(self, i: int) -> Point {
        Point { x: self.x.slot(i), y: self.y.slot(i), z: self.z.slot(i) }
    }

    /// Creates a new SimdVec3X4 from 4 vectors.
    pub fn from_vec3s(v0: IVec3, v1: IVec3, v2: IVec3, v3: IVec3) -> (r: Self)
        ensures
            r.slot(0) == v0@,
            r.slot(1) == v1@,
            r.slot(2) == v2@,
            r.slot(3) == v3@,
    {
        SimdVec3X4 {
            x: SimdI32x4::new(v0.x, v1.x, v2.x, v3.x),
            y: SimdI32x4::new(v0.y, v1.y, v2.y, v3.y),
            z: SimdI32x4::new(v0.z, v1.z, v2.z, v3.z),
        }
    }

    /// Splats a single vector across all 4 lanes.
    pub fn splat(v: IVec3) -> (r: Self)
        ensures
            forall|i: int| 0 <= i < 4 ==> #[trigger] r.slot(i) == v@,
    {
        SimdVec3X4 { x: SimdI32x4::splat(v.x), y: SimdI32x4::splat(v.y), z: SimdI32x4::splat(v.z) }
    }

    /// Slot-wise sum of two batches. No coordinate of a sum may leave the
    /// 32-bit grid.
    pub fn add(self, other: Self, path: SimdPath) -> (r: Self)
        requires
            forall|i: int|
                #![trigger self.slot(i)]
                0 <= i < 4 ==> fits_ivec3(point_add(self.slot(i), other.slot(i))),
        ensures
            forall|i: int|
                0 <= i < 4 ==> #[trigger] r.slot(i) == point_add(self.slot(i), other.slot(i)),
    {
        assert forall|i: int| 0 <= i < 4 implies i32::MIN <= #[trigger] self.x.slot(i)
            + other.x.slot(i) <= i32::MAX by {
            assert(fits_ivec3(point_add(self.slot(i), other.slot(i))));
        }
        assert forall|i: int| 0 <= i < 4 implies i32::MIN <= #[trigger] self.y.slot(i)
            + other.y.slot(i) <= i32::MAX by {
            assert(fits_ivec3(point_add(self.slot(i), other.slot(i))));
        }
        assert forall|i: int| 0 <= i < 4 implies i32::MIN <= #[trigger] self.z.slot(i)
            + other.z.slot(i) <= i32::MAX by {
            assert(fits_ivec3(point_add(self.slot(i), other.slot(i))));
        }
        SimdVec3X4 {
            x: narrow_sum(self.x, other.x, path),
            y: narrow_sum(self.y, other.y, path),
            z: narrow_sum(self.z, other.z, path),
        }
    }

    /// The four dot products of the vectors of two batches, slot by slot:
    /// `x1*x2 + y1*y2 + z1*z2`.
    pub fn dot(&self, other: &Self, path: SimdPath) -> (r: SimdI128x4)
        ensures
            forall|i: int| 0 <= i < 4 ==> #[trigger] r.slot(i) == dot(self.slot(i), other.slot(i)),
    {
        let r = dot_lanes(
            widen_twice(self.x),
            widen_twice(self.y),
            widen_twice(self.z),
            widen_twice(other.x),
            widen_twice(other.y),
            widen_twice(other.z),
            path,
        );
        assert forall|i: int| 0 <= i < 4 implies #[trigger] r.slot(i) == dot(
            self.slot(i),
            other.slot(i),
        ) by {}
        r
    }
}

/// The four values of a 32-bit lane group in 128-bit lanes.
fn widen_twice(v: SimdI32x4) -> (r: SimdI128x4)
    ensures
        forall|i: int| 0 <= i < 4 ==> #[trigger] r.slot(i) == v.slot(i),
        lanes_within(r, 0x8000_0000),
{
    let mid = v.widen();
    let r = mid.widen();
    assert forall|i: int| 0 <= i < 4 implies #[trigger] r.slot(i) == v.slot(i) by {
        assert(mid.slot(i) == v.slot(i));
    }
    r
}

/// Whether the interval from `min` to `max` has a middle and a half length
/// on the 32-bit grid.
pub open spec fn halves_exactly(min: int, max: int) -> bool {
    &&& (min + max) % 2 == 0
    &&& i32::MIN <= (min + max) / 2 <= i32::MAX
    &&& i32::MIN <= (max - min) / 2 <= i32::MAX
}

/// `weight` if `hit` holds, and zero otherwise.
pub open spec fn bit_if(hit: bool, weight: int) -> int {
    if hit {
        weight
    } else {
        0
    }
}

/// 4 AABBs stored in SoA format.
///
/// The corners are kept in 64-bit lanes, so that the corners of a box whose
/// center and half extents are on the 32-bit grid are always exact.
#[derive(Clone, Copy, Debug, PartialEq, Eq)]
pub struct SimdAabbX4 {
    pub min_x: SimdI64x4,
    pub min_y: SimdI64x4,
    pub min_z: SimdI64x4,
    pub max_x: SimdI64x4,
    pub max_y: SimdI64x4,
    pub max_z: SimdI64x4,
}

impl SimdAabbX4 {
    /// The smallest corner of the box in slot `i`.
    pub open spec fn slot_min(self, i: int) -> Point {
        Point { x: self.min_x.slot(i), y: self.min_y.slot(i), z: self.min_z.slot(i) }
    }

    /// The largest corner of the box in slot `i`.
    pub open spec fn slot_max(self, i: int) -> Point {
        Point { x: self.max_x.slot(i), y: self.max_y.slot(i), z: self.max_z.slot(i) }
    }

    /// Whether the box in slot `i` is one: no corner coordinate of `max` is
    /// below that of `min`. A box without volume counts.
    pub open spec fn slot_valid(self, i: int) -> bool {
        &&& self.slot_min(i).x <= self.slot_max(i).x
        &&& self.slot_min(i).y <= self.slot_max(i).y
        &&& self.slot_min(i).z <= self.slot_max(i).z
    }

    /// Creates a new SimdAabbX4 from 4 AABBs.
    pub fn from_aabbs(a0: &Aabb, a1: &Aabb, a2: &Aabb, a3: &Aabb) -> (r: Self)
        ensures
            r.slot_min(0) == a0.min_spec(),
            r.slot_max(0) == a0.max_spec(),
            r.slot_min(1) == a1.min_spec(),
            r.slot_max(1) == a1.max_spec(),
            r.slot_min(2) == a2.min_spec(),
            r.slot_max(2) == a2.max_spec(),
            r.slot_min(3) == a3.min_spec(),
            r.slot_max(3) == a3.max_spec(),
    {
        let c0 = a0.center;
        let c1 = a1.center;
        let c2 = a2.center;
        let c3 = a3.center;
        let h0 = a0.half_extents;
        let h1 = a1.half_extents;
        let h2 = a2.half_extents;
        let h3 = a3.half_extents;
        SimdAabbX4 {
            min_x: SimdI64x4::new(
                c0.x as i64 - h0.x as i64,
                c1.x as i64 - h1.x as i64,
                c2.x as i64 - h2.x as i64,
                c3.x as i64 - h3.x as i64,
            ),
            min_y: SimdI64x4::new(
                c0.y as i64 - h0.y as i64,
                c1.y as i64 - h1.y as i64,
                c2.y as i64 - h2.y as i64,
                c3.y as i64 - h3.y as i64,
            ),
            min_z: SimdI64x4::new(
                c0.z as i64 - h0.z as i64,
                c1.z as i64 - h1.z as i64,
                c2.z as i64 - h2.z as i64,
                c3.z as i64 - h3.z as i64,
            ),
            max_x: SimdI64x4::new(
                c0.x as i64 + h0.x as i64,
                c1.x as i64 + h1.x as i64,
                c2.x as i64 + h2.x as i64,
                c3.x as i64 + h3.x as i64,
            ),
            max_y: SimdI64x4::new(
                c0.y as i64 + h0.y as i64,
                c1.y as i64 + h1.y as i64,
                c2.y as i64 + h2.y as i64,
                c3.y as i64 + h3.y as i64,
            ),
            max_z: SimdI64x4::new(
                c0.z as i64 + h0.z as i64,
                c1.z as i64 + h1.z as i64,
                c2.z as i64 + h2.z as i64,
                c3.z as i64 + h3.z as i64,
            ),
        }
    }

    /// Creates a new SimdAabbX4 from the corners of 4 boxes.
    pub fn new(min: SimdVec3X4, max: SimdVec3X4) -> (r: Self)
        ensures
            forall|i: int| 0 <= i < 4 ==> #[trigger] r.slot_min(i) == min.slot(i),
            forall|i: int| 0 <= i < 4 ==> #[trigger] r.slot_max(i) == max.slot(i),
    {
        let r = SimdAabbX4 {
            min_x: min.x.widen(),
            min_y: min.y.widen(),
            min_z: min.z.widen(),
            max_x: max.x.widen(),
            max_y: max.y.widen(),
            max_z: max.z.widen(),
        };
        assert forall|i: int| 0 <= i < 4 implies #[trigger] r.slot_min(i) == min.slot(i) by {
            assert(r.min_x.slot(i) == min.x.slot(i));
            assert(r.min_y.slot(i) == min.y.slot(i));
            assert(r.min_z.slot(i) == min.z.slot(i));
        }
        assert forall|i: int| 0 <= i < 4 implies #[trigger] r.slot_max(i) == max.slot(i) by {
            assert(r.max_x.slot(i) == max.x.slot(i));
            assert(r.max_y.slot(i) == max.y.slot(i));
            assert(r.max_z.slot(i) == max.z.slot(i));
        }
        r
    }

    /// Creates a new SimdAabbX4 from the centers and the half extents of 4
    /// boxes: each smallest corner is the center less the half extent, each
    /// largest corner the center plus the half extent.
    pub fn from_centers_and_extents(centers: SimdVec3X4, extents: SimdVec3X4, path: SimdPath) -> (r:
        Self)
        ensures
            forall|i: int|
                0 <= i < 4 ==> #[trigger] r.slot_min(i) == point_sub(
                    centers.slot(i),
                    extents.slot(i),
                ),
            forall|i: int|
                0 <= i < 4 ==> #[trigger] r.slot_max(i) == point_add(
                    centers.slot(i),
                    extents.slot(i),
                ),
    {
        let r = SimdAabbX4 {
            min_x: wide_difference(centers.x, extents.x, path),
            min_y: wide_difference(centers.y, extents.y, path),
            min_z: wide_difference(centers.z, extents.z, path),
            max_x: wide_sum(centers.x, extents.x, path),
            max_y: wide_sum(centers.y, extents.y, path),
            max_z: wide_sum(centers.z, extents.z, path),
        };
        assert forall|i: int| 0 <= i < 4 implies #[trigger] r.slot_min(i) == point_sub(
            centers.slot(i),
            extents.slot(i),
        ) by {
            assert(r.min_x.slot(i) == centers.x.slot(i) - extents.x.slot(i));
            assert(r.min_y.slot(i) == centers.y.slot(i) - extents.y.slot(i));
            assert(r.min_z.slot(i) == centers.z.slot(i) - extents.z.slot(i));
        }
        assert forall|i: int| 0 <= i < 4 implies #[trigger] r.slot_max(i) == point_add(
            centers.slot(i),
            extents.slot(i),
        ) by {
            assert(r.max_x.slot(i) == centers.x.slot(i) + extents.x.slot(i));
            assert(r.max_y.slot(i) == centers.y.slot(i) + extents.y.slot(i));
            assert(r.max_z.slot(i) == centers.z.slot(i) + extents.z.slot(i));
        }
        r
    }

    /// Whether the box in slot `i` can be given by a center and half
    /// extents on the 32-bit grid.
    pub open spec fn slot_has_center(self, i: int) -> bool {
        &&& halves_exactly(self.slot_min(i).x, self.slot_max(i).x)
        &&& halves_exactly(self.slot_min(i).y, self.slot_max(i).y)
        &&& halves_exactly(self.slot_min(i).z, self.slot_max(i).z)
    }

    /// The centers and the half extents of the four boxes:
    /// `center = (min + max) / 2` and `half_extent = (max - min) / 2`.
    ///
    /// Nothing is rounded. Where a box has no center or no half extent on
    /// the 32-bit grid, there is no result.
    pub fn to_centers_and_extents(&self) -> (r: Option<(SimdVec3X4, SimdVec3X4)>)
        ensures
            match r {
                Some((centers, extents)) => forall|i: int|
                    #![trigger centers.slot(i)]
                    0 <= i < 4 ==> {
                        &&& self.slot_has_center(i)
                        &&& self.slot_min(i) == point_sub(centers.slot(i), extents.slot(i))
                        &&& self.slot_max(i) == point_add(centers.slot(i), extents.slot(i))
                    },
                None => exists|i: int| 0 <= i < 4 && !#[trigger] self.slot_has_center(i),
            },
    {
        let x = halve_lanes(&self.min_x, &self.max_x);
        let y = halve_lanes(&self.min_y, &self.max_y);
        let z = halve_lanes(&self.min_z, &self.max_z);
        match (x, y, z) {
            (Some((cx, ex)), Some((cy, ey)), Some((cz, ez))) => {
                let centers = SimdVec3X4 { x: cx, y: cy, z: cz };
                let extents = SimdVec3X4 { x: ex, y: ey, z: ez };
                assert forall|i: int| #![trigger centers.slot(i)] 0 <= i < 4 implies {
                    &&& self.slot_has_center(i)
                    &&& self.slot_min(i) == point_sub(centers.slot(i), extents.slot(i))
                    &&& self.slot_max(i) == point_add(centers.slot(i), extents.slot(i))
                } by {
                    assert(halves_exactly(self.min_x.slot(i), self.max_x.slot(i)));
                    assert(halves_exactly(self.min_y.slot(i), self.max_y.slot(i)));
                    assert(halves_exactly(self.min_z.slot(i), self.max_z.slot(i)));
                    assert(cx.slot(i) + ex.slot(i) == self.max_x.slot(i));
                    assert(cy.slot(i) + ey.slot(i) == self.max_y.slot(i));
                    assert(cz.slot(i) + ez.slot(i) == self.max_z.slot(i));
                }
                Some((centers, extents))
            },
            _ => {
                proof {
                    let i = if x.is_none() {
                        choose|i: int|
                            0 <= i < 4 && !halves_exactly(
                                #[trigger] self.min_x.slot(i),
                                self.max_x.slot(i),
                            )
                    } else if y.is_none() {
                        choose|i: int|
                            0 <= i < 4 && !halves_exactly(
                                #[trigger] self.min_y.slot(i),
                                self.max_y.slot(i),
                            )
                    } else {
                        choose|i: int|
                            0 <= i < 4 && !halves_exactly(
                                #[trigger] self.min_z.slot(i),
                                self.max_z.slot(i),
                            )
                    };
                    assert(!self.slot_has_center(i));
                }
                None
            },
        }
    }

    /// Whether the box in slot `i` shares a point with `other`.
    pub open spec fn slot_overlaps(self, i: int, other: Aabb) -> bool {
        boxes_overlap(self.slot_min(i), self.slot_max(i), other.min_spec(), other.max_spec())
    }

    /// Checks intersection with another AABB (splatted).
    /// Returns a bitmask (0-15) where bit i is set if AABB i intersects:
    /// the sum of 1 for slot 0, 2 for slot 1, 4 for slot 2 and 8 for slot 3,
    /// each counted where the slot's box shares a point with `other`.
    pub fn intersects_aabb(&self, other: &Aabb) -> (mask: u8)
        ensures
            mask == bit_if(self.slot_overlaps(0, *other), 1) + bit_if(
                self.slot_overlaps(1, *other),
                2,
            ) + bit_if(self.slot_overlaps(2, *other), 4) + bit_if(self.slot_overlaps(3, *other), 8),
    {
        let o_min_x = SimdI64x4::splat(other.center.x as i64 - other.half_extents.x as i64);
        let o_min_y = SimdI64x4::splat(other.center.y as i64 - other.half_extents.y as i64);
        let o_min_z = SimdI64x4::splat(other.center.z as i64 - other.half_extents.z as i64);
        let o_max_x = SimdI64x4::splat(other.center.x as i64 + other.half_extents.x as i64);
        let o_max_y = SimdI64x4::splat(other.center.y as i64 + other.half_extents.y as i64);
        let o_max_z = SimdI64x4::splat(other.center.z as i64 + other.half_extents.z as i64);

        let mut mask = 0u8;
        let mut weight = 1u8;
        let mut i: usize = 0;
        while i < 4
            invariant
                i <= 4,
                weight == slot_weight(i as int),
                mask == self.mask_below(*other, i as int),
                mask < weight,
                forall|k: int| 0 <= k < 4 ==> #[trigger] o_min_x.slot(k) == other.min_spec().x,
                forall|k: int| 0 <= k < 4 ==> #[trigger] o_min_y.slot(k) == other.min_spec().y,
                forall|k: int| 0 <= k < 4 ==> #[trigger] o_min_z.slot(k) == other.min_spec().z,
                forall|k: int| 0 <= k < 4 ==> #[trigger] o_max_x.slot(k) == other.max_spec().x,
                forall|k: int| 0 <= k < 4 ==> #[trigger] o_max_y.slot(k) == other.max_spec().y,
                forall|k: int| 0 <= k < 4 ==> #[trigger] o_max_z.slot(k) == other.max_spec().z,
            decreases 4 - i,
        {
            let intersect_x = self.max_x.0[i] >= o_min_x.0[i] && self.min_x.0[i] <= o_max_x.0[i];
            let intersect_y = self.max_y.0[i] >= o_min_y.0[i] && self.min_y.0[i] <= o_max_y.0[i];
            let intersect_z = self.max_z.0[i] >= o_min_z.0[i] && self.min_z.0[i] <= o_max_z.0[i];
            proof {
                assert(o_min_x.slot(i as int) == other.min_spec().x);
                assert(o_min_y.slot(i as int) == other.min_spec().y);
                assert(o_min_z.slot(i as int) == other.min_spec().z);
                assert(o_max_x.slot(i as int) == other.max_spec().x);
                assert(o_max_y.slot(i as int) == other.max_spec().y);
                assert(o_max_z.slot(i as int) == other.max_spec().z);
                assert((intersect_x && intersect_y && intersect_z) == self.slot_overlaps(
                    i as int,
                    *other,
                ));
            }
            if intersect_x && intersect_y && intersect_z {
                mask = mask + weight;
            }
            weight = weight * 2;
            i += 1;
        }
        proof {
            reveal_with_fuel(SimdAabbX4::mask_below, 5);
        }
        mask
    }

    /// Tests the four boxes against one plane, given by its normal (the same
    /// in every slot, as a rule) and its offset.
    ///
    /// Slot `i` of the result is true where the plane does not reject box
    /// `i`: the signed distance of the box's center plus the radius of the
    /// box's projection onto the normal is zero or more.
    pub fn plane_test(&self, normal: &SimdVec3X4, offset: &SimdI64x4, path: SimdPath) -> (r: [bool;
        4])
        ensures
            forall|i: int|
                0 <= i < 4 ==> #[trigger] r[i] == box_passes(
                    self.slot_min(i),
                    self.slot_max(i),
                    Plane { normal: normal.slot(i), offset: offset.slot(i) },
                ),
    {
        let nx = widen_twice(normal.x);
        let ny = widen_twice(normal.y);
        let nz = widen_twice(normal.z);
        let min_x = self.min_x.widen();
        let min_y = self.min_y.widen();
        let min_z = self.min_z.widen();
        let max_x = self.max_x.widen();
        let max_y = self.max_y.widen();
        let max_z = self.max_z.widen();
        // twice the center, and twice the half extent
        let cx = min_x.add(max_x, path);
        let cy = min_y.add(max_y, path);
        let cz = min_z.add(max_z, path);
        let hx = max_x.sub(min_x, path);
        let hy = max_y.sub(min_y, path);
        let hz = max_z.sub(min_z, path);
        assert(lanes_within(cx, wide_bound()) && lanes_within(cy, wide_bound()) && lanes_within(
            cz,
            wide_bound(),
        ));
        assert(lanes_within(hx, wide_bound()) && lanes_within(hy, wide_bound()) && lanes_within(
            hz,
            wide_bound(),
        ));
        let off = offset.widen();
        let off2 = off.add(off, path);
        let along = dot_lanes(cx, cy, cz, nx, ny, nz, path);
        let distance = along.add(off2, path);
        proof {
            lemma_products_fit(hx, nx);
            lemma_products_fit(hy, ny);
            lemma_products_fit(hz, nz);
        }
        let rx = magnitude(hx.mul(nx, path), path);
        let ry = magnitude(hy.mul(ny, path), path);
        let rz = magnitude(hz.mul(nz, path), path);
        let rxy = rx.add(ry, path);
        let radius = rxy.add(rz, path);
        let reach = distance.add(radius, path);
        let r = reach.non_negative();
        assert forall|i: int| 0 <= i < 4 implies #[trigger] r[i] == box_passes(
            self.slot_min(i),
            self.slot_max(i),
            Plane { normal: normal.slot(i), offset: offset.slot(i) },
        ) by {
            assert(reach.slot(i) == distance.slot(i) + radius.slot(i));
            assert(radius.slot(i) == rxy.slot(i) + rz.slot(i));
            assert(rxy.slot(i) == rx.slot(i) + ry.slot(i));
            assert(distance.slot(i) == along.slot(i) + off2.slot(i));
            assert(off2.slot(i) == off.slot(i) + off.slot(i));
            assert(cx.slot(i) == min_x.slot(i) + max_x.slot(i));
            assert(cy.slot(i) == min_y.slot(i) + max_y.slot(i));
            assert(cz.slot(i) == min_z.slot(i) + max_z.slot(i));
            assert(hx.slot(i) == max_x.slot(i) - min_x.slot(i));
            assert(hy.slot(i) == max_y.slot(i) - min_y.slot(i));
            assert(hz.slot(i) == max_z.slot(i) - min_z.slot(i));
        }
        r
    }

    /// The part of the intersection mask that the slots below `n` make up.
    pub open spec fn mask_below(self, other: Aabb, n: int) -> int
        decreases n,
    {
        if n <= 0 {
            0
        } else {
            self.mask_below(other, n - 1) + bit_if(
                self.slot_overlaps(n - 1, other),
                slot_weight(n - 1),
            )
        }
    }
}

/// The weight of slot `i` in a bitmask: 1, 2, 4, 8, and 16 for the slot
/// after the last.
pub open spec fn slot_weight(i: int) -> int {
    if i <= 0 {
        1
    } else if i == 1 {
        2
    } else if i == 2 {
        4
    } else if i == 3 {
        8
    } else {
        16
    }
}

/// The middle and the half length of one interval, where both are on the
/// 32-bit grid.
fn halve(min: i64, max: i64) -> (r: Option<(i32, i32)>)
    ensures
        r.is_some() == halves_exactly(min as int, max as int),
        r matches Some((middle, half)) ==> middle - half == min && middle + half == max,
{
    let sum = min as i128 + max as i128;
    let difference = max as i128 - min as i128;
    if sum % 2 != 0 {
        return None;
    }
    let middle = sum / 2;
    let half = difference / 2;
    assert(difference % 2 == 0) by {
        assert(difference == sum - 2 * min);
    }
    if middle < -0x8000_0000 || middle > 0x7fff_ffff || half < -0x8000_0000 || half > 0x7fff_ffff {
        return None;
    }
    Some((middle as i32, half as i32))
}

/// The middles and the half lengths of four intervals, where all of them
/// are on the 32-bit grid.
fn halve_lanes(min: &SimdI64x4, max: &SimdI64x4) -> (r: Option<(SimdI32x4, SimdI32x4)>)
    ensures
        match r {
            Some((middles, halves)) => forall|i: int|
                #![trigger min.slot(i)]
                0 <= i < 4 ==> {
                    &&& halves_exactly(min.slot(i), max.slot(i))
                    &&& middles.slot(i) - halves.slot(i) == min.slot(i)
                    &&& middles.slot(i) + halves.slot(i) == max.slot(i)
                },
            None => exists|i: int|
                0 <= i < 4 && !halves_exactly(#[trigger] min.slot(i), max.slot(i)),
        },
{
    let mut middles = [0i32;4];
    let mut halves = [0i32;4];
    let mut i: usize = 0;
    while i < 4
        invariant
            i <= 4,
            forall|k: int|
                #![trigger min.slot(k)]
                0 <= k < i ==> {
                    &&& halves_exactly(min.slot(k), max.slot(k))
                    &&& middles[k] - halves[k] == min.slot(k)
                    &&& middles[k] + halves[k] == max.slot(k)
                },
        decreases 4 - i,
    {
        match halve(min.0[i], max.0[i]) {
            Some((middle, half)) => {
                middles[i] = middle;
                halves[i] = half;
            },
            None => {
                assert(!halves_exactly(min.slot(i as int), max.slot(i as int)));
                return None;
            },
        }
        i += 1;
    }
    Some((SimdI32x4(middles), SimdI32x4(halves)))
}

/// Slot-wise `a - b` of two 32-bit lane groups, in 64-bit lanes.
fn wide_difference(a: SimdI32x4, b: SimdI32x4, path: SimdPath) -> (r: SimdI64x4)
    ensures
        forall|i: int| 0 <= i < 4 ==> #[trigger] r.slot(i) == a.slot(i) - b.slot(i),
{
    match path {
        SimdPath::Scalar => {
            let mut out = [0i64;4];
            let mut i: usize = 0;
            while i < 4
                invariant
                    i <= 4,
                    forall|k: int| 0 <= k < i ==> #[trigger] out[k] == a.slot(k) - b.slot(k),
                decreases 4 - i,
            {
                out[i] = a.0[i] as i64 - b.0[i] as i64;
                i += 1;
            }
            SimdI64x4(out)
        },
        _ => SimdI64x4(
            [
                a.0[0] as i64 - b.0[0] as i64,
                a.0[1] as i64 - b.0[1] as i64,
                a.0[2] as i64 - b.0[2] as i64,
                a.0[3] as i64 - b.0[3] as i64,
            ],
        ),
    }
}

/// Slot-wise `a + b` of two 32-bit lane groups, in 64-bit lanes.
fn wide_sum(a: SimdI32x4, b: SimdI32x4, path: SimdPath) -> (r: SimdI64x4)
    ensures
        forall|i: int| 0 <= i < 4 ==> #[trigger] r.slot(i) == a.slot(i) + b.slot(i),
{
    match path {
        SimdPath::Scalar => {
            let mut out = [0i64;4];
            let mut i: usize = 0;
            while i < 4
                invariant
                    i <= 4,
                    forall|k: int| 0 <= k < i ==> #[trigger] out[k] == a.slot(k) + b.slot(k),
                decreases 4 - i,
            {
                out[i] = a.0[i] as i64 + b.0[i] as i64;
                i += 1;
            }
            SimdI64x4(out)
        },
        _ => SimdI64x4(
            [
                a.0[0] as i64 + b.0[0] as i64,
                a.0[1] as i64 + b.0[1] as i64,
                a.0[2] as i64 + b.0[2] as i64,
                a.0[3] as i64 + b.0[3] as i64,
            ],
        ),
    }
}

/// A bound on the doubled coordinates of a box: two to the power of 65.
pub open spec fn wide_bound() -> int {
    0x2_0000_0000_0000_0000
}

/// A bound on the coordinates of a plane's normal: two to the power of 32.
pub open spec fn narrow_bound() -> int {
    0x1_0000_0000
}

/// A bound on the product of a doubled coordinate and a normal's
/// coordinate: two to the power of 97.
pub open spec fn product_bound() -> int {
    0x2_0000_0000_0000_0000_0000_0000
}

/// Whether every slot of a lane group lies within `bound` of zero.
pub open spec fn lanes_within(v: SimdI128x4, bound: int) -> bool {
    forall|i: int| 0 <= i < 4 ==> -bound <= #[trigger] v.slot(i) <= bound
}

/// The product of two bounded integers is bounded by the product of the
/// bounds.
pub proof fn lemma_product_within(a: int, b: int, bound_a: int, bound_b: int)
    by (nonlinear_arith)
    requires
        -bound_a <= a <= bound_a,
        -bound_b <= b <= bound_b,
    ensures
        -(bound_a * bound_b) <= a * b <= bound_a * bound_b,
{
}

/// Slot-wise `ax*bx + ay*by + az*bz`, for factors small enough that the sum
/// can be held.
fn dot_lanes(
    ax: SimdI128x4,
    ay: SimdI128x4,
    az: SimdI128x4,
    bx: SimdI128x4,
    by: SimdI128x4,
    bz: SimdI128x4,
    path: SimdPath,
) -> (r: SimdI128x4)
    requires
        lanes_within(ax, wide_bound()),
        lanes_within(ay, wide_bound()),
        lanes_within(az, wide_bound()),
        lanes_within(bx, narrow_bound()),
        lanes_within(by, narrow_bound()),
        lanes_within(bz, narrow_bound()),
    ensures
        forall|i: int|
            0 <= i < 4 ==> #[trigger] r.slot(i) == ax.slot(i) * bx.slot(i) + ay.slot(i) * by.slot(
                i,
            ) + az.slot(i) * bz.slot(i),
        lanes_within(r, 3 * product_bound()),
{
    proof {
        lemma_products_fit(ax, bx);
        lemma_products_fit(ay, by);
        lemma_products_fit(az, bz);
    }
    let px = ax.mul(bx, path);
    let py = ay.mul(by, path);
    let pz = az.mul(bz, path);
    assert forall|i: int| 0 <= i < 4 implies fits_i128(#[trigger] px.slot(i) + py.slot(i)) by {
        assert(py.slot(i) == ay.slot(i) * by.slot(i));
    }
    let pxy = px.add(py, path);
    assert forall|i: int| 0 <= i < 4 implies fits_i128(#[trigger] pxy.slot(i) + pz.slot(i)) by {
        assert(px.slot(i) == ax.slot(i) * bx.slot(i));
        assert(py.slot(i) == ay.slot(i) * by.slot(i));
        assert(pz.slot(i) == az.slot(i) * bz.slot(i));
    }
    pxy.add(pz, path)
}

/// The products of a lane group within the wide bound and one within the
/// narrow bound lie within the product bound, and so fit in 128 bits.
proof fn lemma_products_fit(a: SimdI128x4, b: SimdI128x4)
    requires
        lanes_within(a, wide_bound()),
        lanes_within(b, narrow_bound()),
    ensures
        forall|i: int|
            #![trigger a.slot(i)]
            0 <= i < 4 ==> -product_bound() <= a.slot(i) * b.slot(i) <= product_bound(),
        forall|i: int| #![trigger a.slot(i)] 0 <= i < 4 ==> fits_i128(a.slot(i) * b.slot(i)),
{
    assert(wide_bound() * narrow_bound() == product_bound());
    assert forall|i: int| #![trigger a.slot(i)] 0 <= i < 4 implies -product_bound() <= a.slot(i)
        * b.slot(i) <= product_bound() by {
        assert(-narrow_bound() <= b.slot(i) <= narrow_bound());
        lemma_product_within(a.slot(i), b.slot(i), wide_bound(), narrow_bound());
    }
}

/// Slot-wise magnitude, taken as the larger of a value and its negation.
fn magnitude(v: SimdI128x4, path: SimdPath) -> (r: SimdI128x4)
    requires
        lanes_within(v, product_bound()),
    ensures
        forall|i: int| 0 <= i < 4 ==> #[trigger] r.slot(i) == abs_int(v.slot(i)),
        lanes_within(r, product_bound()),
{
    let zero = SimdI128x4::splat(0);
    assert forall|i: int| 0 <= i < 4 implies #[trigger] zero.slot(i) == 0 by {
        assert(zero.0@[i] == 0);
    }
    let negated = zero.sub(v, path);
    let r = v.max(negated, path);
    assert forall|i: int| 0 <= i < 4 implies #[trigger] r.slot(i) == abs_int(v.slot(i)) by {
        assert(negated.slot(i) == zero.slot(i) - v.slot(i));
    }
    r
}

/// Slot-wise sum of two 32-bit lane groups whose sums fit in 32 bits.
fn narrow_sum(a: SimdI32x4, b: SimdI32x4, path: SimdPath) -> (r: SimdI32x4)
    requires
        forall|i: int| 0 <= i < 4 ==> i32::MIN <= #[trigger] a.slot(i) + b.slot(i) <= i32::MAX,
    ensures
        forall|i: int| 0 <= i < 4 ==> #[trigger] r.slot(i) == a.slot(i) + b.slot(i),
{
    match path {
        SimdPath::Scalar => {
            let mut out = [0i32;4];
            let mut i: usize = 0;
            while i < 4
                invariant
                    i <= 4,
                    forall|k: int|
                        0 <= k < 4 ==> i32::MIN <= #[trigger] a.slot(k) + b.slot(k) <= i32::MAX,
                    forall|k: int| 0 <= k < i ==> #[trigger] out[k] == a.slot(k) + b.slot(k),
                decreases 4 - i,
            {
                assert(i32::MIN <= a.slot(i as int) + b.slot(i as int) <= i32::MAX);
                out[i] = a.0[i] + b.0[i];
                i += 1;
            }
            SimdI32x4(out)
        },
        _ => {
            assert(i32::MIN <= a.slot(0) + b.slot(0) <= i32::MAX);
            assert(i32::MIN <= a.slot(1) + b.slot(1) <= i32::MAX);
            assert(i32::MIN <= a.slot(2) + b.slot(2) <= i32::MAX);
            assert(i32::MIN <= a.slot(3) + b.slot(3) <= i32::MAX);
            SimdI32x4([a.0[0] + b.0[0], a.0[1] + b.0[1], a.0[2] + b.0[2], a.0[3] + b.0[3]])
        },
    }
}

} // verus!
