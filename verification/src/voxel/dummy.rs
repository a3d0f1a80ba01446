//! A plain list of colored voxels, capped at the community edition's limit.

use vstd::arithmetic::div_mod::lemma_fundamental_div_mod_converse;
use vstd::prelude::*;
use super::MAX_VOXELS_COMMUNITY;

verus! {

/// One colored cell of the grid.
#[derive(Debug, Clone, Copy, PartialEq, Eq, Structural, Hash)]
pub struct Voxel {
    pub x: i32,
    pub y: i32,
    pub z: i32,
    /// Red, green, blue and opacity, eight bits each, red in the highest.
    pub color: u32,
}

/// The color with the given red, green and blue parts and full opacity.
pub open spec fn opaque_color(r: u8, g: u8, b: u8) -> u32 {
    (r as u32) << 24 | (g as u32) << 16 | (b as u32) << 8 | 0xFF
}

impl Voxel {
    pub fn new(x: i32, y: i32, z: i32, color: u32) -> (voxel: Self)
        ensures
            voxel == (Voxel { x, y, z, color }),
    {
        Voxel { x, y, z, color }
    }

    /// A fully opaque voxel of the given red, green and blue.
    pub fn from_rgb(x: i32, y: i32, z: i32, r: u8, g: u8, b: u8) -> (voxel: Self)
        ensures
            voxel == (Voxel { x, y, z, color: opaque_color(r, g, b) }),
            voxel.color >> 24 == r,
            (voxel.color >> 16) & 0xFF == g,
            (voxel.color >> 8) & 0xFF == b,
            voxel.color & 0xFF == 0xFF,
    {
        let color = ((r as u32) << 24) | ((g as u32) << 16) | ((b as u32) << 8) | 0xFF;
        assert(color >> 24 == r && (color >> 16) & 0xFF == g && (color >> 8) & 0xFF == b && color
            & 0xFF == 0xFF) by (bit_vector)
            requires
                color == (r as u32) << 24 | (g as u32) << 16 | (b as u32) << 8 | 0xFF,
        ;
        Voxel::new(x, y, z, color)
    }
}

/// The shade of a color part at `step` steps from the low end of a cube of
/// the given size: from 0 at the low end towards 255 at the high end.
pub open spec fn shade(step: int, size: int) -> u8 {
    (step * 255 / size) as u8
}

/// The voxel at place `i` of the test world of the given size. Places count
/// through z first, then y, then x.
pub open spec fn test_world_voxel(size: int, i: int) -> Voxel {
    let half = size / 2;
    let side = 2 * half;
    let x = i / (side * side) - half;
    let y = (i / side) % side - half;
    let z = i % side - half;
    Voxel {
        x: x as i32,
        y: y as i32,
        z: z as i32,
        color: opaque_color(shade(x + half, size), shade(y + half, size), shade(z + half, size)),
    }
}

/// The number of voxels of the test world of the given size: those of the
/// whole cube, or the limit where the cube has more.
pub open spec fn test_world_len(size: int) -> nat {
    let side = 2 * (size / 2);
    let cells = side * side * side;
    if size < 2 {
        0
    } else if cells < MAX_VOXELS_COMMUNITY {
        cells as nat
    } else {
        MAX_VOXELS_COMMUNITY as nat
    }
}

/// The test world of the given size.
pub open spec fn test_world(size: int) -> Seq<Voxel> {
    Seq::new(test_world_len(size), |i: int| test_world_voxel(size, i))
}

/// In a cube of the given side, the cell at `a` steps along x, `b` along y
/// and `c` along z has the place `(a * side + b) * side + c`, and the place
/// gives the steps back.
proof fn lemma_cell_index(side: int, a: int, b: int, c: int)
    requires
        side >= 2,
        0 <= a < side,
        0 <= b < side,
        0 <= c <= side,
    ensures
        ({
            let i = (a * side + b) * side + c;
            &&& c < side ==> i / (side * side) == a
            &&& c < side ==> (i / side) % side == b
            &&& c < side ==> i % side == c
            &&& i >= a && i >= b && i >= c
            &&& c < side ==> i < side * side * side
            &&& i <= side * side * side
        }),
{
    let i = (a * side + b) * side + c;
    assert(i >= a && i >= b && i >= c && i <= side * side * side && (c < side ==> i < side * side
        * side)) by (nonlinear_arith)
        requires
            i == (a * side + b) * side + c,
            side >= 2,
            0 <= a < side,
            0 <= b < side,
            0 <= c <= side,
    ;
    if c < side {
        lemma_fundamental_div_mod_converse(i, side, a * side + b, c);
        lemma_fundamental_div_mod_converse(a * side + b, side, a, b);
        assert(i == a * (side * side) + (b * side + c) && 0 <= b * side + c < side * side)
            by (nonlinear_arith)
            requires
                i == (a * side + b) * side + c,
                side >= 2,
                0 <= b < side,
                0 <= c < side,
        ;
        lemma_fundamental_div_mod_converse(i, side * side, a, b * side + c);
    }
}

/// The shade of a step inside the cube is below 255.
proof fn lemma_shade_is_a_byte(step: int, size: int)
    by (nonlinear_arith)
    requires
        0 <= step < size,
    ensures
        0 <= step * 255 / size < 255,
{
}

/// A world of at most `MAX_VOXELS_COMMUNITY` voxels, in the order they were
/// added.
#[derive(Debug)]
pub struct DummyVoxelWorld {
    voxels: Vec<Voxel>,
}

impl View for DummyVoxelWorld {
    type V = Seq<Voxel>;

    closed spec fn view(&self) -> Seq<Voxel> {
        self.voxels@
    }
}

impl Default for DummyVoxelWorld {
    fn default() -> (world: Self)
        ensures
            world@ == Seq::<Voxel>::empty(),
            world.within_limit(),
    {
        Self::new()
    }
}

impl DummyVoxelWorld {
    /// Whether the world holds no more voxels than the limit. Every world
    /// does: it starts out empty, and nothing adds a voxel beyond the limit.
    pub open spec fn within_limit(&self) -> bool {
        self@.len() <= MAX_VOXELS_COMMUNITY
    }

    /// A world without voxels.
    pub fn new() -> (world: Self)
        ensures
            world@ == Seq::<Voxel>::empty(),
            world.within_limit(),
    {
        DummyVoxelWorld { voxels: Vec::new() }
    }

    /// A world without voxels, with room for `capacity` of them, or for as
    /// many as the limit admits if that is fewer.
    pub fn with_capacity(capacity: usize) -> (world: Self)
        ensures
            world@ == Seq::<Voxel>::empty(),
            world.within_limit(),
    {
        let capacity = if capacity <= MAX_VOXELS_COMMUNITY {
            capacity
        } else {
            MAX_VOXELS_COMMUNITY
        };
        DummyVoxelWorld { voxels: Vec::with_capacity(capacity) }
    }

    /// Adds a voxel at the end, unless the world is at its limit. Tells
    /// whether the voxel was added.
    pub fn add_voxel(&mut self, voxel: Voxel) -> (added: bool)
        ensures
            added == (old(self)@.len() < MAX_VOXELS_COMMUNITY),
            added ==> final(self)@ == old(self)@.push(voxel),
            !added ==> final(self)@ == old(self)@,
            old(self).within_limit() ==> final(self).within_limit(),
    {
        if self.voxels.len() >= MAX_VOXELS_COMMUNITY {
            return false;
        }
        self.voxels.push(voxel);
        true
    }

    /// Removes every voxel.
    pub fn clear(&mut self)
        ensures
            final(self)@ == Seq::<Voxel>::empty(),
            final(self).within_limit(),
    {
        self.voxels.clear();
    }

    /// The number of voxels in the world.
    pub fn voxel_count(&self) -> (count: usize)
        ensures
            count == self@.len(),
    {
        self.voxels.len()
    }

    /// Whether the world can take no further voxel.
    pub fn is_at_limit(&self) -> (full: bool)
        ensures
            full == (self@.len() >= MAX_VOXELS_COMMUNITY),
    {
        self.voxels.len() >= MAX_VOXELS_COMMUNITY
    }

    /// Replaces the world by a cube of voxels around the origin, colored by
    /// position.
    ///
    /// With `half = size / 2`, the cube reaches from `-half` up to, but not
    /// including, `half` along each axis. Its voxels come in the order of x,
    /// then y, then z, and the world takes them until the cube is complete or
    /// the limit is reached. A size below two gives an empty world.
    pub fn generate_test_world(&mut self, size: i32)
        ensures
            final(self)@ == test_world(size as int),
            final(self).within_limit(),
    {
        self.clear();
        let half = size / 2;
        if half <= 0 {
            return ;
        }
        let ghost side = 2 * half as int;
        let mut x = -half;
        assert((x + half) * side * side == 0) by (nonlinear_arith)
            requires
                x + half == 0,
        ;
        while x < half
            invariant
                1 <= half == size as int / 2,
                side == 2 * half,
                -half <= x <= half,
                self@.len() == (x + half) * side * side,
                self@.len() <= MAX_VOXELS_COMMUNITY,
                forall|i: int| 0 <= i < self@.len() ==> self@[i] == test_world_voxel(size as int, i),
            decreases half - x,
        {
            let mut y = -half;
            while y < half
                invariant
                    1 <= half == size as int / 2,
                    side == 2 * half,
                    -half <= x < half,
                    -half <= y <= half,
                    self@.len() == ((x + half) * side + (y + half)) * side,
                    self@.len() <= MAX_VOXELS_COMMUNITY,
                    forall|i: int|
                        0 <= i < self@.len() ==> self@[i] == test_world_voxel(size as int, i),
                decreases half - y,
            {
                let mut z = -half;
                while z < half
                    invariant
                        1 <= half == size as int / 2,
                        side == 2 * half,
                        -half <= x < half,
                        -half <= y < half,
                        -half <= z <= half,
                        self@.len() == ((x + half) * side + (y + half)) * side + (z + half),
                        self@.len() <= MAX_VOXELS_COMMUNITY,
                        forall|i: int|
                            0 <= i < self@.len() ==> self@[i] == test_world_voxel(size as int, i),
                    decreases half - z,
                {
                    proof {
                        lemma_cell_index(side, (x + half) as int, (y + half) as int, (z + half) as int);
                    }
                    if self.voxel_count() >= MAX_VOXELS_COMMUNITY {
                        assert(self@ =~= test_world(size as int));
                        return ;
                    }
                    let r = ((x + half) * 255 / size) as u8;
                    let g = ((y + half) * 255 / size) as u8;
                    let b = ((z + half) * 255 / size) as u8;
                    proof {
                        lemma_shade_is_a_byte((x + half) as int, size as int);
                        lemma_shade_is_a_byte((y + half) as int, size as int);
                        lemma_shade_is_a_byte((z + half) as int, size as int);
                    }
                    self.add_voxel(Voxel::from_rgb(x, y, z, r, g, b));
                    z += 1;
                }
                assert((((x + half) * side + (y + half)) * side + side) == ((x + half) * side + (y
                    + 1 + half)) * side) by (nonlinear_arith);
                y += 1;
            }
            assert(((x + half) * side + side) * side == (x + 1 + half) * side * side)
                by (nonlinear_arith);
            x += 1;
        }
        assert(self@ =~= test_world(size as int));
    }

    /// The voxels, in the order they were added.
    pub fn voxels(&self) -> (voxels: &[Voxel])
        ensures
            voxels@ == self@,
    {
        self.voxels.as_slice()
    }
}

} // verus!
