//! Integer grid positions and the distance metrics used by targeting.

use vstd::prelude::*;

verus! {

/// A point on the integer grid of the map.
#[derive(Debug, Clone, Copy, PartialEq, Eq, Structural)]
pub struct Position {
    pub x: i32,
    pub y: i32,
}

impl Position {
    pub fn new(x: i32, y: i32) -> (p: Position)
        ensures
            p.x == x,
            p.y == y,
    {
        Position { x, y }
    }

    pub fn initial() -> (p: Position)
        ensures
            p.x == 0,
            p.y == 0,
    {
        Position { x: 0, y: 0 }
    }

    /// Block distance: zero on the same cell, one for any of the eight
    /// neighbouring cells, and the Manhattan distance otherwise.
    pub open spec fn block_distance_spec(self, other: Position) -> int {
        let dx = abs_int(self.x - other.x);
        let dy = abs_int(self.y - other.y);
        if dx == 0 && dy == 0 {
            0
        } else if dx <= 1 && dy <= 1 {
            1
        } else {
            dx + dy
        }
    }

    /// Grid ("block") distance to `other`: adjacency, diagonals included,
    /// collapses to one cell; farther cells use the Manhattan distance.
    pub fn distance_to(&self, other: &Position) -> (d: u64)
        ensures
            d == self.block_distance_spec(*other),
    {
        let dx: u64 = abs_diff(self.x, other.x);
        let dy: u64 = abs_diff(self.y, other.y);
        if dx == 0 && dy == 0 {
            0
        } else if dx <= 1 && dy <= 1 {
            1
        } else {
            dx + dy
        }
    }

    /// The square of the Euclidean distance between the two grid points.
    pub open spec fn distance_sq_spec(self, other: Position) -> int {
        let dx = self.x - other.x;
        let dy = self.y - other.y;
        dx * dx + dy * dy
    }

    /// Square of the straight-line distance to `other`. Range checks compare
    /// this square against a squared radius, which avoids any rounding.
    pub fn distance_sq_to(&self, other: &Position) -> (d: u128)
        ensures
            d == self.distance_sq_spec(*other),
    {
        let dx: u64 = abs_diff(self.x, other.x);
        let dy: u64 = abs_diff(self.y, other.y);
        proof {
            let dxi = self.x - other.x;
            let dyi = self.y - other.y;
            assert(dx == abs_int(dxi) && dy == abs_int(dyi));
            assert(abs_int(dxi) * abs_int(dxi) == dxi * dxi) by (nonlinear_arith);
            assert(abs_int(dyi) * abs_int(dyi) == dyi * dyi) by (nonlinear_arith);
            assert(dx <= 0x1_0000_0000 && dy <= 0x1_0000_0000);
            assert(dx * dx <= 0x1_0000_0000 * 0x1_0000_0000) by (nonlinear_arith)
                requires
                    dx <= 0x1_0000_0000,
            ;
            assert(dy * dy <= 0x1_0000_0000 * 0x1_0000_0000) by (nonlinear_arith)
                requires
                    dy <= 0x1_0000_0000,
            ;
        }
        (dx as u128) * (dx as u128) + (dy as u128) * (dy as u128)
    }
}

/// The absolute value of a mathematical integer.
pub open spec fn abs_int(x: int) -> int {
    if x < 0 {
        -x
    } else {
        x
    }
}

/// The absolute difference of two grid coordinates, exact in `u64`.
pub fn abs_diff(a: i32, b: i32) -> (d: u64)
    ensures
        d == abs_int(a - b),
        d <= 0x1_0000_0000,
{
    if a >= b {
        (a as i64 - b as i64) as u64
    } else {
        (b as i64 - a as i64) as u64
    }
}

} // verus!
