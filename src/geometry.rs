//! Points and axis-aligned boxes in fixed-point world coordinates.
use vstd::prelude::*;

verus! {

/// Number of fixed-point steps in one world unit: coordinates are hundredths.
pub const UNIT: i64 = 100;

/// A position, a size or a velocity, in hundredths of a world unit.
#[derive(Clone, Copy, Debug, PartialEq, Eq, Structural)]
pub struct Vec2 {
    pub x: i64,
    pub y: i64,
}

impl Vec2 {
    pub fn new(x: i64, y: i64) -> (r: Vec2)
        ensures
            r.x == x,
            r.y == y,
    {
        Vec2 { x, y }
    }
}

/// Axis-aligned box: `pos` is its minimum corner, `size` its extent.
#[derive(Clone, Copy, Debug, PartialEq, Eq, Structural)]
pub struct BBox {
    pub pos: Vec2,
    pub size: Vec2,
}

impl BBox {
    /// The overlap rule: on each axis the first box's far edge lies strictly
    /// beyond the other's near edge, and its near edge lies at or before the
    /// other's far edge.
    pub open spec fn overlaps(self, other: BBox) -> bool {
        &&& self.pos.x + self.size.x > other.pos.x
        &&& self.pos.x <= other.pos.x + other.size.x
        &&& self.pos.y + self.size.y > other.pos.y
        &&& self.pos.y <= other.pos.y + other.size.y
    }

    pub fn new(x: i64, y: i64, width: i64, height: i64) -> (r: BBox)
        ensures
            r.pos.x == x,
            r.pos.y == y,
            r.size.x == width,
            r.size.y == height,
    {
        BBox { pos: Vec2 { x, y }, size: Vec2 { x: width, y: height } }
    }

    /// Checks if this box intersects another one.
    pub fn intersects(&self, other: &BBox) -> (r: bool)
        ensures
            r == self.overlaps(*other),
    {
        let ax = self.pos.x as i128;
        let ay = self.pos.y as i128;
        let bx = other.pos.x as i128;
        let by = other.pos.y as i128;
        (ax + self.size.x as i128 > bx && ax <= bx + other.size.x as i128) && (ay
            + self.size.y as i128 > by && ay <= by + other.size.y as i128)
    }
}

} // verus!
