use vstd::prelude::*;
use crate::geometry::{Point2, MILLI};

verus! {

/// A grid of flags, one per map cell, stored row by row.
pub struct PixelMap {
    pub width: usize,
    pub height: usize,
    pub cells: Vec<bool>,
}

/// The cell column (or row) that a coordinate falls in; a negative
/// coordinate counts as the first one.
pub open spec fn cell_of(c: i32) -> int {
    if c < 0 {
        0
    } else {
        (c as int) / (MILLI as int)
    }
}

impl PixelMap {
    pub fn new(width: usize, height: usize, cells: Vec<bool>) -> (r: PixelMap)
        ensures
            r.width == width,
            r.height == height,
            r.cells@ == cells@,
    {
        PixelMap { width, height, cells }
    }

    /// Whether the cell holding `p` is flagged; a point outside the grid is not.
    pub open spec fn spec_is_set(&self, p: Point2) -> bool {
        let x = cell_of(p.x);
        let y = cell_of(p.y);
        let i = y * self.width + x;
        &&& x < self.width
        &&& y < self.height
        &&& i < self.cells@.len()
        &&& self.cells@[i]
    }

    pub fn is_set(&self, p: Point2) -> (r: bool)
        ensures
            r == self.spec_is_set(p),
    {
        let x: i32 = if p.x < 0 { 0 } else { p.x / (MILLI as i32) };
        let y: i32 = if p.y < 0 { 0 } else { p.y / (MILLI as i32) };
        let x = x as usize;
        let y = y as usize;
        if x >= self.width || y >= self.height {
            return false;
        }
        let n = self.cells.len();
        let i = match y.checked_mul(self.width) {
            Some(row) => match row.checked_add(x) {
                Some(i) => i,
                None => return false,
            },
            None => return false,
        };
        if i >= n {
            return false;
        }
        self.cells[i]
    }
}

} // verus!
