//! World positions and the fixed dimensions of the map and of the display.

use vstd::prelude::*;

verus! {

/// Width of the map, in tiles.
pub const SCREEN_WIDTH: i32 = 80;

/// Height of the map, in tiles.
pub const SCREEN_HEIGHT: i32 = 50;

/// Width of the visible window, in tiles: half the width of the map.
pub const DISPLAY_WIDTH: i32 = 40;

/// Height of the visible window, in tiles: half the height of the map.
pub const DISPLAY_HEIGHT: i32 = 25;

/// An integer position in world space. Nothing bounds it: a point may lie
/// outside the map.
#[derive(Clone, Copy, PartialEq, Eq, Debug, Structural)]
pub struct Point {
    pub x: i32,
    pub y: i32,
}

impl Point {
    /// The point with the given coordinates.
    pub fn new(x: i32, y: i32) -> (p: Point)
        ensures
            p == (Point { x, y }),
    {
        Point { x, y }
    }

    /// The origin.
    pub fn zero() -> (p: Point)
        ensures
            p == (Point { x: 0, y: 0 }),
    {
        Point { x: 0, y: 0 }
    }
}

} // verus!
