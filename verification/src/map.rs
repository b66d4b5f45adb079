//! The tile grid: a flat buffer of tiles with bounds and walkability queries.

use vstd::prelude::*;
use crate::geometry::{Point, SCREEN_WIDTH, SCREEN_HEIGHT};

verus! {

/// Number of tiles in a map.
pub const NUM_TILES: usize = 4000;

/// What a tile is.
#[derive(Clone, Copy, PartialEq, Eq, Debug, Structural)]
pub enum TileType {
    Wall,
    Floor,
}

/// The map of tiles, in row-major order.
pub struct TileGrid {
    pub tiles: Vec<TileType>,
}

/// Whether `(x, y)` lies on the map.
pub open spec fn in_bounds(x: int, y: int) -> bool {
    0 <= x < SCREEN_WIDTH && 0 <= y < SCREEN_HEIGHT
}

/// The place of `(x, y)` in the row-major tile buffer.
pub open spec fn flat_index(x: int, y: int) -> int {
    y * SCREEN_WIDTH + x
}

/// A buffer of `NUM_TILES` tiles holds one tile for each point of the map:
/// every point has a place in it, and no two points share one.
pub proof fn lemma_flat_index_bijective(x1: int, y1: int, x2: int, y2: int)
    requires
        in_bounds(x1, y1),
        in_bounds(x2, y2),
    ensures
        NUM_TILES == SCREEN_WIDTH * SCREEN_HEIGHT,
        0 <= flat_index(x1, y1) < NUM_TILES,
        flat_index(x1, y1) == flat_index(x2, y2) <==> (x1 == x2 && y1 == y2),
{
}

/// The index of `(x, y)` in the tile buffer.
pub fn map_index(x: i32, y: i32) -> (index: usize)
    requires
        in_bounds(x as int, y as int),
    ensures
        index == flat_index(x as int, y as int),
        index < NUM_TILES,
{
    (y * SCREEN_WIDTH + x) as usize
}

impl TileGrid {
    /// The invariant of a map: it holds one tile for each point in bounds.
    pub open spec fn wf(&self) -> bool {
        self.tiles@.len() == NUM_TILES
    }

    /// The tile at `(x, y)`, a point in bounds.
    pub open spec fn tile_at(&self, x: int, y: int) -> TileType
        recommends
            self.wf(),
            in_bounds(x, y),
    {
        self.tiles@[flat_index(x, y)]
    }

    /// Whether `(x, y)` is on the map and its tile is a floor.
    pub open spec fn enterable(&self, x: int, y: int) -> bool {
        in_bounds(x, y) && self.tile_at(x, y) == TileType::Floor
    }

    /// A map whose every tile is a floor.
    pub fn new() -> (grid: TileGrid)
        ensures
            grid.wf(),
            forall|i: int| 0 <= i < NUM_TILES ==> grid.tiles@[i] == TileType::Floor,
    {
        let mut tiles: Vec<TileType> = Vec::with_capacity(NUM_TILES);
        let mut i: usize = 0;
        while i < NUM_TILES
            invariant
                i <= NUM_TILES,
                tiles@.len() == i,
                forall|k: int| 0 <= k < i ==> tiles@[k] == TileType::Floor,
            decreases NUM_TILES - i,
        {
            tiles.push(TileType::Floor);
            i += 1;
        }
        TileGrid { tiles }
    }

    /// Whether `point` lies on the map.
    pub fn point_in_bounds(&self, point: Point) -> (inside: bool)
        ensures
            inside == in_bounds(point.x as int, point.y as int),
    {
        point.x >= 0 && point.x < SCREEN_WIDTH && point.y >= 0 && point.y < SCREEN_HEIGHT
    }

    /// Whether something can move onto `point`: it lies on the map and its tile
    /// is a floor. A point off the map is answered without a look at the tiles.
    pub fn can_enter_tile(&self, point: Point) -> (enter: bool)
        requires
            self.wf(),
        ensures
            enter == self.enterable(point.x as int, point.y as int),
            enter == (in_bounds(point.x as int, point.y as int)
                && self.tile_at(point.x as int, point.y as int) == TileType::Floor),
    {
        self.point_in_bounds(point) && self.tiles[map_index(point.x, point.y)] == TileType::Floor
    }

    /// The index of `point` in the tile buffer, if it lies on the map.
    pub fn try_index(&self, point: Point) -> (index: Option<usize>)
        ensures
            in_bounds(point.x as int, point.y as int) ==> index == Some(
                flat_index(point.x as int, point.y as int) as usize,
            ),
            !in_bounds(point.x as int, point.y as int) ==> index.is_none(),
            index matches Some(i) ==> i < NUM_TILES,
    {
        if !self.point_in_bounds(point) {
            None
        } else {
            Some(map_index(point.x, point.y))
        }
    }
}

} // verus!
