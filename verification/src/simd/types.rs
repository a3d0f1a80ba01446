//! Groups of four integers that are processed together, slot by slot.
//!
//! Coordinates and plane normals travel in 32-bit lanes, box corners and
//! plane offsets in 64-bit lanes, and every product and sum of them is
//! formed in 128-bit lanes, where it is exact.

use vstd::prelude::*;
use super::SimdPath;

verus! {

/// Whether a value can be held in a 128-bit lane slot.
pub open spec fn fits_i128(v: int) -> bool {
    i128::MIN <= v <= i128::MAX
}

/// The quotient of `a` by `b`, rounded towards zero.
pub open spec fn trunc_div(a: int, b: int) -> int {
    if a >= 0 {
        a / b
    } else {
        -((-a) / b)
    }
}

/// Whether `a` can be divided by `b` within a 128-bit lane slot: the
/// divisor is not zero, and the smallest value is not divided by minus one.
pub open spec fn can_div_i128(a: int, b: int) -> bool {
    b != 0 && !(a == i128::MIN && b == -1)
}

/// The smaller of two integers.
pub open spec fn min_int(a: int, b: int) -> int {
    if a <= b {
        a
    } else {
        b
    }
}

/// The larger of two integers.
pub open spec fn max_int(a: int, b: int) -> int {
    if a >= b {
        a
    } else {
        b
    }
}

/// A 4-lane i32 SIMD vector.
#[derive(Clone, Copy, Debug, PartialEq, Eq)]
pub struct SimdI32x4(pub [i32; 4]);

impl SimdI32x4 {
    /// The value held in slot `i`.
    pub open spec fn slot(self, i: int) -> int {
        self.0[i] as int
    }

    /// Creates a new SimdI32x4 from 4 integers.
    pub fn new(x: i32, y: i32, z: i32, w: i32) -> (r: Self)
        ensures
            r.0@ == seq![x, y, z, w],
            r.slot(0) == x,
            r.slot(1) == y,
            r.slot(2) == z,
            r.slot(3) == w,
    {
        SimdI32x4([x, y, z, w])
    }

    /// Creates a new SimdI32x4 with all lanes set to `v`.
    pub fn splat(v: i32) -> (r: Self)
        ensures
            r.0@ == seq![v, v, v, v],
            forall|i: int| 0 <= i < 4 ==> #[trigger] r.slot(i) == v,
    {
        SimdI32x4([v, v, v, v])
    }

    /// The same four values in 64-bit lanes.
    pub fn widen(self) -> (r: SimdI64x4)
        ensures
            forall|i: int| 0 <= i < 4 ==> #[trigger] r.slot(i) == self.slot(i),
    {
        SimdI64x4([self.0[0] as i64, self.0[1] as i64, self.0[2] as i64, self.0[3] as i64])
    }
}

/// A 4-lane i64 SIMD vector.
#[derive(Clone, Copy, Debug, PartialEq, Eq)]
pub struct SimdI64x4(pub [i64; 4]);

impl SimdI64x4 {
    /// The value held in slot `i`.
    pub open spec fn slot(self, i: int) -> int {
        self.0[i] as int
    }

    /// Creates a new SimdI64x4 from 4 integers.
    pub fn new(x: i64, y: i64, z: i64, w: i64) -> (r: Self)
        ensures
            r.0@ == seq![x, y, z, w],
            r.slot(0) == x,
            r.slot(1) == y,
            r.slot(2) == z,
            r.slot(3) == w,
    {
        SimdI64x4([x, y, z, w])
    }

    /// Creates a new SimdI64x4 with all lanes set to `v`.
    pub fn splat(v: i64) -> (r: Self)
        ensures
            r.0@ == seq![v, v, v, v],
            forall|i: int| 0 <= i < 4 ==> #[trigger] r.slot(i) == v,
    {
        SimdI64x4([v, v, v, v])
    }

    /// The same four values in 128-bit lanes.
    pub fn widen(self) -> (r: SimdI128x4)
        ensures
            forall|i: int| 0 <= i < 4 ==> #[trigger] r.slot(i) == self.slot(i),
    {
        SimdI128x4([self.0[0] as i128, self.0[1] as i128, self.0[2] as i128, self.0[3] as i128])
    }
}

/// A 4-lane i128 SIMD vector, wide enough for exact distances.
///
/// Its arithmetic takes the path to run on. The scalar path visits one slot
/// after the other; every other path works on the four slots at once. The
/// result does not depend on the path.
#[derive(Clone, Copy, Debug, PartialEq, Eq)]
pub struct SimdI128x4(pub [i128; 4]);

impl SimdI128x4 {
    /// The value held in slot `i`.
    pub open spec fn slot(self, i: int) -> int {
        self.0[i] as int
    }

    /// Creates a new SimdI128x4 from 4 integers.
    pub fn new(x: i128, y: i128, z: i128, w: i128) -> (r: Self)
        ensures
            r.0@ == seq![x, y, z, w],
            r.slot(0) == x,
            r.slot(1) == y,
            r.slot(2) == z,
            r.slot(3) == w,
    {
        SimdI128x4([x, y, z, w])
    }

    /// Creates a new SimdI128x4 with all lanes set to `v`.
    pub fn splat(v: i128) -> (r: Self)
        ensures
            r.0@ == seq![v, v, v, v],
            forall|i: int| 0 <= i < 4 ==> #[trigger] r.slot(i) == v,
    {
        SimdI128x4([v, v, v, v])
    }

    /// Slot-wise sum.
    pub fn add(self, rhs: Self, path: SimdPath) -> (r: Self)
        requires
            forall|i: int|
                #![trigger self.slot(i)]
                0 <= i < 4 ==> fits_i128(self.slot(i) + rhs.slot(i)),
        ensures
            forall|i: int| 0 <= i < 4 ==> #[trigger] r.slot(i) == self.slot(i) + rhs.slot(i),
    {
        match path {
            SimdPath::Scalar => {
                let mut out = [0i128;4];
                let mut i: usize = 0;
                while i < 4
                    invariant
                        i <= 4,
                        forall|k: int|
                            #![trigger self.slot(k)]
                            0 <= k < 4 ==> fits_i128(self.slot(k) + rhs.slot(k)),
                        forall|k: int| 0 <= k < i ==> #[trigger] out[k] == self.slot(k) + rhs.slot(k),
                    decreases 4 - i,
                {
                    assert(fits_i128(self.slot(i as int) + rhs.slot(i as int)));
                    out[i] = self.0[i] + rhs.0[i];
                    i += 1;
                }
                SimdI128x4(out)
            },
            _ => {
                assert(fits_i128(self.slot(0) + rhs.slot(0)));
                assert(fits_i128(self.slot(1) + rhs.slot(1)));
                assert(fits_i128(self.slot(2) + rhs.slot(2)));
                assert(fits_i128(self.slot(3) + rhs.slot(3)));
                SimdI128x4(
                    [
                        self.0[0] + rhs.0[0],
                        self.0[1] + rhs.0[1],
                        self.0[2] + rhs.0[2],
                        self.0[3] + rhs.0[3],
                    ],
                )
            },
        }
    }

    /// Slot-wise difference.
    pub fn sub(self, rhs: Self, path: SimdPath) -> (r: Self)
        requires
            forall|i: int|
                #![trigger self.slot(i)]
                0 <= i < 4 ==> fits_i128(self.slot(i) - rhs.slot(i)),
        ensures
            forall|i: int| 0 <= i < 4 ==> #[trigger] r.slot(i) == self.slot(i) - rhs.slot(i),
    {
        match path {
            SimdPath::Scalar => {
                let mut out = [0i128;4];
                let mut i: usize = 0;
                while i < 4
                    invariant
                        i <= 4,
                        forall|k: int|
                            #![trigger self.slot(k)]
                            0 <= k < 4 ==> fits_i128(self.slot(k) - rhs.slot(k)),
                        forall|k: int| 0 <= k < i ==> #[trigger] out[k] == self.slot(k) - rhs.slot(k),
                    decreases 4 - i,
                {
                    assert(fits_i128(self.slot(i as int) - rhs.slot(i as int)));
                    out[i] = self.0[i] - rhs.0[i];
                    i += 1;
                }
                SimdI128x4(out)
            },
            _ => {
                assert(fits_i128(self.slot(0) - rhs.slot(0)));
                assert(fits_i128(self.slot(1) - rhs.slot(1)));
                assert(fits_i128(self.slot(2) - rhs.slot(2)));
                assert(fits_i128(self.slot(3) - rhs.slot(3)));
                SimdI128x4(
                    [
                        self.0[0] - rhs.0[0],
                        self.0[1] - rhs.0[1],
                        self.0[2] - rhs.0[2],
                        self.0[3] - rhs.0[3],
                    ],
                )
            },
        }
    }

    /// Slot-wise product.
    pub fn mul(self, rhs: Self, path: SimdPath) -> (r: Self)
        requires
            forall|i: int|
                #![trigger self.slot(i)]
                0 <= i < 4 ==> fits_i128(self.slot(i) * rhs.slot(i)),
        ensures
            forall|i: int| 0 <= i < 4 ==> #[trigger] r.slot(i) == self.slot(i) * rhs.slot(i),
    {
        match path {
            SimdPath::Scalar => {
                let mut out = [0i128;4];
                let mut i: usize = 0;
                while i < 4
                    invariant
                        i <= 4,
                        forall|k: int|
                            #![trigger self.slot(k)]
                            0 <= k < 4 ==> fits_i128(self.slot(k) * rhs.slot(k)),
                        forall|k: int| 0 <= k < i ==> #[trigger] out[k] == self.slot(k) * rhs.slot(k),
                    decreases 4 - i,
                {
                    assert(fits_i128(self.slot(i as int) * rhs.slot(i as int)));
                    out[i] = self.0[i] * rhs.0[i];
                    i += 1;
                }
                SimdI128x4(out)
            },
            _ => {
                assert(fits_i128(self.slot(0) * rhs.slot(0)));
                assert(fits_i128(self.slot(1) * rhs.slot(1)));
                assert(fits_i128(self.slot(2) * rhs.slot(2)));
                assert(fits_i128(self.slot(3) * rhs.slot(3)));
                SimdI128x4(
                    [
                        self.0[0] * rhs.0[0],
                        self.0[1] * rhs.0[1],
                        self.0[2] * rhs.0[2],
                        self.0[3] * rhs.0[3],
                    ],
                )
            },
        }
    }

    /// Slot-wise quotient, rounded towards zero.
    ///
    /// No slot of the divisor may be zero, and no slot may divide the
    /// smallest value by minus one, whose quotient no slot can hold.
    pub fn div(self, rhs: Self, path: SimdPath) -> (r: Self)
        requires
            forall|i: int|
                #![trigger self.slot(i)]
                0 <= i < 4 ==> can_div_i128(self.slot(i), rhs.slot(i)),
        ensures
            forall|i: int|
                0 <= i < 4 ==> #[trigger] r.slot(i) == trunc_div(self.slot(i), rhs.slot(i)),
    {
        match path {
            SimdPath::Scalar => {
                let mut out = [0i128;4];
                let mut i: usize = 0;
                while i < 4
                    invariant
                        i <= 4,
                        forall|k: int|
                            #![trigger self.slot(k)]
                            0 <= k < 4 ==> can_div_i128(self.slot(k), rhs.slot(k)),
                        forall|k: int|
                            0 <= k < i ==> #[trigger] out[k] == trunc_div(
                                self.slot(k),
                                rhs.slot(k),
                            ),
                    decreases 4 - i,
                {
                    assert(can_div_i128(self.slot(i as int), rhs.slot(i as int)));
                    out[i] = quotient(self.0[i], rhs.0[i]);
                    i += 1;
                }
                SimdI128x4(out)
            },
            _ => {
                assert(can_div_i128(self.slot(0), rhs.slot(0)));
                assert(can_div_i128(self.slot(1), rhs.slot(1)));
                assert(can_div_i128(self.slot(2), rhs.slot(2)));
                assert(can_div_i128(self.slot(3), rhs.slot(3)));
                SimdI128x4(
                    [
                        quotient(self.0[0], rhs.0[0]),
                        quotient(self.0[1], rhs.0[1]),
                        quotient(self.0[2], rhs.0[2]),
                        quotient(self.0[3], rhs.0[3]),
                    ],
                )
            },
        }
    }

    /// Returns the minimum of self and other (lane-wise).
    pub fn min(self, other: Self, path: SimdPath) -> (r: Self)
        ensures
            forall|i: int|
                0 <= i < 4 ==> #[trigger] r.slot(i) == min_int(self.slot(i), other.slot(i)),
    {
        match path {
            SimdPath::Scalar => {
                let mut out = [0i128;4];
                let mut i: usize = 0;
                while i < 4
                    invariant
                        i <= 4,
                        forall|k: int|
                            0 <= k < i ==> #[trigger] out[k] == min_int(
                                self.slot(k),
                                other.slot(k),
                            ),
                    decreases 4 - i,
                {
                    out[i] = smaller(self.0[i], other.0[i]);
                    i += 1;
                }
                SimdI128x4(out)
            },
            _ => SimdI128x4(
                [
                    smaller(self.0[0], other.0[0]),
                    smaller(self.0[1], other.0[1]),
                    smaller(self.0[2], other.0[2]),
                    smaller(self.0[3], other.0[3]),
                ],
            ),
        }
    }

    /// Returns the maximum of self and other (lane-wise).
    pub fn max(self, other: Self, path: SimdPath) -> (r: Self)
        ensures
            forall|i: int|
                0 <= i < 4 ==> #[trigger] r.slot(i) == max_int(self.slot(i), other.slot(i)),
    {
        match path {
            SimdPath::Scalar => {
                let mut out = [0i128;4];
                let mut i: usize = 0;
                while i < 4
                    invariant
                        i <= 4,
                        forall|k: int|
                            0 <= k < i ==> #[trigger] out[k] == max_int(
                                self.slot(k),
                                other.slot(k),
                            ),
                    decreases 4 - i,
                {
                    out[i] = larger(self.0[i], other.0[i]);
                    i += 1;
                }
                SimdI128x4(out)
            },
            _ => SimdI128x4(
                [
                    larger(self.0[0], other.0[0]),
                    larger(self.0[1], other.0[1]),
                    larger(self.0[2], other.0[2]),
                    larger(self.0[3], other.0[3]),
                ],
            ),
        }
    }

    /// For each slot, whether its value is zero or more.
    pub fn non_negative(self) -> (r: [bool; 4])
        ensures
            forall|i: int| 0 <= i < 4 ==> #[trigger] r[i] == (self.slot(i) >= 0),
    {
        [self.0[0] >= 0, self.0[1] >= 0, self.0[2] >= 0, self.0[3] >= 0]
    }
}

/// A quotient is never further from zero than its dividend.
proof fn lemma_quotient_bounds(a: int, b: int)
    by (nonlinear_arith)
    requires
        a >= 0,
        b != 0,
    ensures
        -a <= a / b <= a,
{
}

fn quotient(a: i128, b: i128) -> (q: i128)
    requires
        can_div_i128(a as int, b as int),
    ensures
        q == trunc_div(a as int, b as int),
{
    proof {
        if a >= 0 {
            lemma_quotient_bounds(a as int, b as int);
        } else {
            lemma_quotient_bounds(-(a as int), b as int);
            if b != 1 && b != -1 {
                lemma_quotient_strict(-(a as int), b as int);
            }
        }
    }
    a / b
}

/// A divisor other than one and minus one brings a positive dividend
/// strictly closer to zero.
proof fn lemma_quotient_strict(a: int, b: int)
    by (nonlinear_arith)
    requires
        a > 0,
        b != 0,
        b != 1,
        b != -1,
    ensures
        -a < a / b < a,
{
}

fn smaller(a: i128, b: i128) -> (r: i128)
    ensures
        r == min_int(a as int, b as int),
{
    if a <= b {
        a
    } else {
        b
    }
}

fn larger(a: i128, b: i128) -> (r: i128)
    ensures
        r == max_int(a as int, b as int),
{
    if a >= b {
        a
    } else {
        b
    }
}

} // verus!
