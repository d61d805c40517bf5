use vstd::prelude::*;

verus! {

/// Width of a plot, in blocks, along both horizontal axes.
pub const PLOT_WIDTH: i32 = 128;

/// Sub-units per block: positions are fixed-point numbers at this resolution.
pub const UNITS_PER_BLOCK: i64 = 4096;

/// A block coordinate in the world.
#[derive(Clone, Copy, Debug, PartialEq, Eq, Structural)]
pub struct BlockPos {
    pub x: i32,
    pub y: u32,
    pub z: i32,
}

/// The face of a block that an interaction targets.
#[derive(Clone, Copy, Debug, PartialEq, Eq, Structural)]
pub enum BlockFace {
    Bottom,
    Top,
    North,
    South,
    West,
    East,
}

/// A horizontal direction a player can face.
#[derive(Clone, Copy, Debug, PartialEq, Eq, Structural)]
pub enum Direction {
    North,
    South,
    East,
    West,
}

/// A position in fixed-point sub-units (`UNITS_PER_BLOCK` per block).
#[derive(Clone, Copy, Debug, PartialEq, Eq, Structural)]
pub struct Position {
    pub x: i64,
    pub y: i64,
    pub z: i64,
}

pub open spec fn face_of_id(id: u32) -> BlockFace {
    if id == 0 {
        BlockFace::Bottom
    } else if id == 1 {
        BlockFace::Top
    } else if id == 2 {
        BlockFace::North
    } else if id == 3 {
        BlockFace::South
    } else if id == 5 {
        BlockFace::East
    } else {
        BlockFace::West
    }
}

/// One step along an axis, staying put where the step would leave `i32`.
pub open spec fn step(v: i32, d: int) -> i32 {
    if i32::MIN <= v + d <= i32::MAX {
        (v + d) as i32
    } else {
        v
    }
}

/// One step in height, staying put where the step would leave `u32`.
pub open spec fn step_height(v: u32, d: int) -> u32 {
    if 0 <= v + d <= u32::MAX {
        (v + d) as u32
    } else {
        v
    }
}

/// The neighbouring block across `face`.
pub open spec fn offset_spec(p: BlockPos, face: BlockFace) -> BlockPos {
    match face {
        BlockFace::Bottom => BlockPos { y: step_height(p.y, -1), ..p },
        BlockFace::Top => BlockPos { y: step_height(p.y, 1), ..p },
        BlockFace::North => BlockPos { z: step(p.z, -1), ..p },
        BlockFace::South => BlockPos { z: step(p.z, 1), ..p },
        BlockFace::West => BlockPos { x: step(p.x, -1), ..p },
        BlockFace::East => BlockPos { x: step(p.x, 1), ..p },
    }
}

/// Whether block column (`x`, `z`) lies inside plot (`plot_x`, `plot_z`).
pub open spec fn in_plot_spec(plot_x: int, plot_z: int, x: int, z: int) -> bool {
    plot_x * PLOT_WIDTH <= x < (plot_x + 1) * PLOT_WIDTH && plot_z * PLOT_WIDTH <= z < (
    plot_z + 1) * PLOT_WIDTH
}

/// The block coordinate holding a fixed-point coordinate, rounded toward zero
/// and saturated to `i32`.
pub open spec fn block_of_spec(v: i64) -> i32 {
    let b = v as int / UNITS_PER_BLOCK as int;
    let t = if v < 0 && b * UNITS_PER_BLOCK != v { b + 1 } else { b };
    if t > i32::MAX {
        i32::MAX
    } else if t < i32::MIN {
        i32::MIN
    } else {
        t as i32
    }
}

/// The plot coordinate holding fixed-point coordinate `v`: `v` in blocks
/// divided by the plot width, rounded down, saturated to `i32`.
pub open spec fn plot_of_spec(v: i64) -> i32 {
    let t = v as int / (UNITS_PER_BLOCK * PLOT_WIDTH) as int;
    if t > i32::MAX {
        i32::MAX
    } else if t < i32::MIN {
        i32::MIN
    } else {
        t as i32
    }
}

/// The direction a yaw faces; yaw is in hundredths of a degree, 0 facing south
/// and growing clockwise seen from above (south, west, north, east).
pub open spec fn facing_spec(yaw: i32) -> Direction {
    let quarter = (yaw as int + 4500) / 9000;
    let r = quarter % 4;
    if r == 0 {
        Direction::South
    } else if r == 1 {
        Direction::West
    } else if r == 2 {
        Direction::North
    } else {
        Direction::East
    }
}

impl BlockFace {
    /// The face a protocol id denotes; ids without a face of their own read as west.
    pub fn from_id(id: u32) -> (r: BlockFace)
        ensures
            r == face_of_id(id),
    {
        match id {
            0 => BlockFace::Bottom,
            1 => BlockFace::Top,
            2 => BlockFace::North,
            3 => BlockFace::South,
            5 => BlockFace::East,
            _ => BlockFace::West,
        }
    }
}

fn step_exec(v: i32, up: bool) -> (r: i32)
    ensures
        r == step(v, if up { 1 } else { -1 }),
{
    if up {
        if v < i32::MAX {
            v + 1
        } else {
            v
        }
    } else {
        if v > i32::MIN {
            v - 1
        } else {
            v
        }
    }
}

fn step_height_exec(v: u32, up: bool) -> (r: u32)
    ensures
        r == step_height(v, if up { 1 } else { -1 }),
{
    if up {
        if v < u32::MAX {
            v + 1
        } else {
            v
        }
    } else {
        if v > 0 {
            v - 1
        } else {
            v
        }
    }
}

impl BlockPos {
    pub fn new(x: i32, y: u32, z: i32) -> (r: BlockPos)
        ensures
            r == (BlockPos { x, y, z }),
    {
        BlockPos { x, y, z }
    }

    /// The neighbouring block across `face`.
    pub fn offset(&self, face: BlockFace) -> (r: BlockPos)
        ensures
            r == offset_spec(*self, face),
    {
        match face {
            BlockFace::Bottom => BlockPos { y: step_height_exec(self.y, false), ..*self },
            BlockFace::Top => BlockPos { y: step_height_exec(self.y, true), ..*self },
            BlockFace::North => BlockPos { z: step_exec(self.z, false), ..*self },
            BlockFace::South => BlockPos { z: step_exec(self.z, true), ..*self },
            BlockFace::West => BlockPos { x: step_exec(self.x, false), ..*self },
            BlockFace::East => BlockPos { x: step_exec(self.x, true), ..*self },
        }
    }
}

/// Whether block column (`x`, `z`) lies inside plot (`plot_x`, `plot_z`).
pub fn in_plot_bounds(plot_x: i32, plot_z: i32, x: i32, z: i32) -> (r: bool)
    ensures
        r == in_plot_spec(plot_x as int, plot_z as int, x as int, z as int),
{
    let px = plot_x as i64 * 128;
    let pz = plot_z as i64 * 128;
    px <= x as i64 && (x as i64) < px + 128 && pz <= z as i64 && (z as i64) < pz + 128
}

/// The block coordinate holding fixed-point coordinate `v`.
pub fn block_of(v: i64) -> (r: i32)
    ensures
        r == block_of_spec(v),
{
    let t = v / UNITS_PER_BLOCK;
    if t > i32::MAX as i64 {
        i32::MAX
    } else if t < i32::MIN as i64 {
        i32::MIN
    } else {
        t as i32
    }
}

/// The plot coordinate holding fixed-point coordinate `v`.
pub fn plot_of(v: i64) -> (r: i32)
    ensures
        r == plot_of_spec(v),
{
    let t = floor_div(v, UNITS_PER_BLOCK * PLOT_WIDTH as i64);
    if t > i32::MAX as i64 {
        i32::MAX
    } else if t < i32::MIN as i64 {
        i32::MIN
    } else {
        t as i32
    }
}

proof fn lemma_floor_of_negative(a: int, d: int)
    requires
        a < 0,
        d > 0,
    ensures
        a / d == -((-(a + 1)) / d) - 1,
{
    let n = -(a + 1);
    let q = n / d;
    let r = n % d;
    vstd::arithmetic::div_mod::lemma_fundamental_div_mod(n, d);
    assert(a == d * (-q - 1) + (d - 1 - r)) by (nonlinear_arith)
        requires
            n == d * q + r,
            a == -n - 1,
    ;
    vstd::arithmetic::div_mod::lemma_fundamental_div_mod_converse(a, d, -q - 1, d - 1 - r);
}

/// `a / d` rounded down.
pub fn floor_div(a: i64, d: i64) -> (r: i64)
    requires
        d > 0,
    ensures
        r == a as int / d as int,
{
    if a >= 0 {
        a / d
    } else {
        let n = -(a + 1);
        let q = n / d;
        proof {
            lemma_floor_of_negative(a as int, d as int);
        }
        -q - 1
    }
}

/// The direction a player with this yaw faces.
pub fn facing(yaw: i32) -> (r: Direction)
    ensures
        r == facing_spec(yaw),
{
    let quarter = floor_div(yaw as i64 + 4500, 9000);
    let r = quarter - floor_div(quarter, 4) * 4;
    if r == 0 {
        Direction::South
    } else if r == 1 {
        Direction::West
    } else if r == 2 {
        Direction::North
    } else {
        Direction::East
    }
}

} // verus!
