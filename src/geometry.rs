use vstd::prelude::*;

verus! {

/// Lengths, coordinates and ranges are held in thousandths of a map cell.
pub const MILLI: i64 = 1000;

/// A point on the map, in thousandths of a cell.
#[derive(Clone, Copy, PartialEq, Eq, Structural, Debug, Hash)]
pub struct Point2 {
    pub x: i32,
    pub y: i32,
}

/// A point with height, in thousandths of a cell.
#[derive(Clone, Copy, PartialEq, Eq, Structural, Debug, Hash)]
pub struct Point3 {
    pub x: i32,
    pub y: i32,
    pub z: i32,
}

impl Point2 {
    pub fn new(x: i32, y: i32) -> (r: Point2)
        ensures
            r.x == x,
            r.y == y,
    {
        Point2 { x, y }
    }

    pub open spec fn spec_distance_squared(self, other: Point2) -> int {
        (self.x - other.x) * (self.x - other.x) + (self.y - other.y) * (self.y - other.y)
    }

    /// The squared distance between two points, in millionths of a squared cell.
    pub fn distance_squared(&self, other: &Point2) -> (r: u128)
        ensures
            r == self.spec_distance_squared(*other),
    {
        let dx: i64 = self.x as i64 - other.x as i64;
        let dy: i64 = self.y as i64 - other.y as i64;
        assert(0 <= dx * dx <= 0x1_0000_0000_0000_0000) by (nonlinear_arith)
            requires
                -0x1_0000_0000 <= dx <= 0x1_0000_0000,
        ;
        assert(0 <= dy * dy <= 0x1_0000_0000_0000_0000) by (nonlinear_arith)
            requires
                -0x1_0000_0000 <= dy <= 0x1_0000_0000,
        ;
        let dx2: i128 = dx as i128 * dx as i128;
        let dy2: i128 = dy as i128 * dy as i128;
        (dx2 + dy2) as u128
    }
}

} // verus!
