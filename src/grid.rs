//! Grid coordinates and the four commands a harvester obeys.

use vstd::prelude::*;

verus! {

/// One cell of a grid, addressed by signed column `x` and row `y`.
#[derive(Clone, Copy, Debug, PartialEq, Eq, Structural, Hash)]
pub struct GridPos {
    pub x: i32,
    pub y: i32,
}

impl GridPos {
    pub fn new(x: i32, y: i32) -> (r: GridPos)
        ensures
            r.x == x,
            r.y == y,
    {
        GridPos { x, y }
    }
}

/// A cardinal direction: both a command in the queue and a facing.
#[derive(Clone, Copy, Debug, PartialEq, Eq, Structural, Hash)]
pub enum HarvestorCommands {
    Up,
    Down,
    Left,
    Right,
}

/// The world-space direction of a command as an integer vector
/// `(x, y, z)`: up is +z, down is -z, left is +x and right is -x.
pub open spec fn world_direction(c: HarvestorCommands) -> (int, int, int) {
    match c {
        HarvestorCommands::Up => (0, 0, 1),
        HarvestorCommands::Down => (0, 0, -1),
        HarvestorCommands::Left => (1, 0, 0),
        HarvestorCommands::Right => (-1, 0, 0),
    }
}

/// The grid displacement of one step in direction `c`: the world x axis
/// runs against the grid's x axis, the world z axis along the grid's y axis.
pub open spec fn displacement(c: HarvestorCommands) -> (int, int) {
    (-world_direction(c).0, world_direction(c).2)
}

/// The cell one step from `p` in direction `c`.
pub open spec fn step_from(p: GridPos, c: HarvestorCommands) -> (int, int) {
    (p.x + displacement(c).0, p.y + displacement(c).1)
}

/// Whether every neighbour of `p` is addressable by an `i32` pair.
pub open spec fn interior(p: GridPos) -> bool {
    i32::MIN < p.x < i32::MAX && i32::MIN < p.y < i32::MAX
}

pub fn command_to_direction(input: &HarvestorCommands) -> (r: (i32, i32, i32))
    ensures
        (r.0 as int, r.1 as int, r.2 as int) == world_direction(*input),
{
    match input {
        HarvestorCommands::Up => (0, 0, 1),
        HarvestorCommands::Down => (0, 0, -1),
        HarvestorCommands::Left => (1, 0, 0),
        HarvestorCommands::Right => (-1, 0, 0),
    }
}

/// The cell one step from `p` in direction `c`.
pub fn step(p: GridPos, c: HarvestorCommands) -> (r: GridPos)
    requires
        interior(p),
    ensures
        r.x == step_from(p, c).0,
        r.y == step_from(p, c).1,
{
    let a = command_to_direction(&c);
    GridPos { x: p.x - a.0, y: p.y + a.2 }
}

impl HarvestorCommands {
    /// The command drawn for a uniform sample `n` out of `0..=3`: up, down,
    /// left, and right for anything else.
    pub fn from_sample(n: u32) -> (r: HarvestorCommands)
        ensures
            n == 0 ==> r == HarvestorCommands::Up,
            n == 1 ==> r == HarvestorCommands::Down,
            n == 2 ==> r == HarvestorCommands::Left,
            n >= 3 ==> r == HarvestorCommands::Right,
    {
        match n {
            0 => HarvestorCommands::Up,
            1 => HarvestorCommands::Down,
            2 => HarvestorCommands::Left,
            _ => HarvestorCommands::Right,
        }
    }

    /// The rotation, in degrees, of the arrow icon that shows this command.
    pub fn arrow_degrees(&self) -> (r: u32)
        ensures
            r == arrow_degrees_of(*self),
    {
        match self {
            HarvestorCommands::Up => 180,
            HarvestorCommands::Down => 0,
            HarvestorCommands::Left => 270,
            HarvestorCommands::Right => 90,
        }
    }
}

/// An arrow icon points down at rest and turns clockwise.
pub open spec fn arrow_degrees_of(c: HarvestorCommands) -> u32 {
    match c {
        HarvestorCommands::Up => 180,
        HarvestorCommands::Down => 0,
        HarvestorCommands::Left => 270,
        HarvestorCommands::Right => 90,
    }
}

} // verus!
