//! Composition of the visible scene: one draw command for each tile that the
//! camera shows, that lies on the map and that no entity stands on.

use vstd::prelude::*;
use crate::camera::Camera;
use crate::geometry::{Point, SCREEN_WIDTH, SCREEN_HEIGHT};
use crate::map::{in_bounds, map_index, TileGrid, TileType, NUM_TILES};
use crate::store::{entity_points, occupied_positions, renderables};
use legion::World;

verus! {

/// The colours that the scene uses.
#[derive(Clone, Copy, PartialEq, Eq, Debug, Structural)]
pub enum Color {
    White,
    Black,
    Gray,
    GreenYellow,
    Yellow,
    Green,
}

/// One instruction for the drawing sink: a glyph in two colours at a screen
/// position.
#[derive(Clone, Copy, PartialEq, Eq, Debug, Structural)]
pub struct DrawCommand {
    pub x: i32,
    pub y: i32,
    pub fg: Color,
    pub bg: Color,
    pub glyph: u16,
}

/// The code that the terminal's code page gives to a character.
pub uninterp spec fn glyph_code(c: char) -> u16;

/// Calls `bracket_lib::prelude::to_cp437`, which looks a character up in a
/// fixed table of the code page 437. Nothing is claimed of the code but that
/// it depends on the character alone.
#[verifier::external_body]
pub(crate) fn glyph_for(c: char) -> (glyph: u16)
    ensures
        glyph == glyph_code(c),
{
    bracket_lib::prelude::to_cp437(c)
}

/// Whether the tile at `(x, y)` is drawn: it lies on the map and none of
/// `occupied` is its position.
pub open spec fn drawn(occupied: Set<Point>, x: int, y: int) -> bool {
    in_bounds(x, y) && !occupied.contains(Point { x: x as i32, y: y as i32 })
}

/// The glyphs of the two kinds of tile.
#[derive(Clone, Copy, PartialEq, Eq, Debug, Structural)]
pub struct TileGlyphs {
    pub floor: u16,
    pub wall: u16,
}

/// The command that draws the tile at `(x, y)`: its glyph, white on black, at
/// its place relative to the camera's top left corner.
pub open spec fn tile_command(
    grid: TileGrid,
    camera: Camera,
    glyphs: TileGlyphs,
    x: int,
    y: int,
) -> DrawCommand {
    DrawCommand {
        x: (x - camera.left_x) as i32,
        y: (y - camera.top_y) as i32,
        fg: Color::White,
        bg: Color::Black,
        glyph: match grid.tile_at(x, y) {
            TileType::Floor => glyphs.floor,
            TileType::Wall => glyphs.wall,
        },
    }
}

/// The commands of row `y` for the columns from the camera's left bound up to,
/// but without, `x_end`, from left to right.
pub open spec fn row_scene(
    grid: TileGrid,
    camera: Camera,
    occupied: Set<Point>,
    glyphs: TileGlyphs,
    y: int,
    x_end: int,
) -> Seq<DrawCommand>
    decreases x_end - camera.left_x,
{
    if x_end <= camera.left_x {
        Seq::empty()
    } else {
        let before = row_scene(grid, camera, occupied, glyphs, y, x_end - 1);
        if drawn(occupied, x_end - 1, y) {
            before.push(tile_command(grid, camera, glyphs, x_end - 1, y))
        } else {
            before
        }
    }
}

/// The commands of the rows from the camera's top bound up to, but without,
/// `y_end`, from top to bottom. A row ends before the camera's right bound.
pub open spec fn rows_scene(
    grid: TileGrid,
    camera: Camera,
    occupied: Set<Point>,
    glyphs: TileGlyphs,
    y_end: int,
) -> Seq<DrawCommand>
    decreases y_end - camera.top_y,
{
    if y_end <= camera.top_y {
        Seq::empty()
    } else {
        rows_scene(grid, camera, occupied, glyphs, y_end - 1) + row_scene(
            grid,
            camera,
            occupied,
            glyphs,
            y_end - 1,
            camera.right_x as int,
        )
    }
}

/// The whole scene: the rows from the camera's top bound to its bottom bound,
/// the bottom row included.
pub open spec fn scene(
    grid: TileGrid,
    camera: Camera,
    occupied: Set<Point>,
    glyphs: TileGlyphs,
) -> Seq<DrawCommand> {
    rows_scene(grid, camera, occupied, glyphs, camera.bottom_y + 1)
}

/// Whether the camera sweeps the cell `(x, y)`: the left, top and bottom
/// bounds belong to the sweep, the right bound does not.
pub open spec fn swept(camera: Camera, x: int, y: int) -> bool {
    camera.left_x <= x < camera.right_x && camera.top_y <= y <= camera.bottom_y
}

/// Whether every tile of the map has a screen position relative to the
/// camera's top left corner that a draw command can hold.
pub open spec fn screen_fits(camera: Camera) -> bool {
    camera.left_x >= SCREEN_WIDTH - 1 - i32::MAX && camera.top_y >= SCREEN_HEIGHT - 1 - i32::MAX
}

/// Whether one of `points` is `point`.
pub fn contains_point(points: &Vec<Point>, point: Point) -> (found: bool)
    ensures
        found == points@.contains(point),
        found == points@.to_set().contains(point),
{
    let mut i: usize = 0;
    while i < points.len()
        invariant
            i <= points@.len(),
            forall|k: int| 0 <= k < i ==> points@[k] != point,
        decreases points@.len() - i,
    {
        if points[i] == point {
            return true;
        }
        i += 1;
    }
    false
}

/// Composes the scene with the given glyphs for floor and wall: for each cell
/// that the camera sweeps, row by row, one command if the cell lies on the map
/// and none of `entity_points` is on it.
pub fn compose_scene(
    entity_points: &Vec<Point>,
    map: &TileGrid,
    camera: &Camera,
    glyphs: TileGlyphs,
) -> (commands: Vec<DrawCommand>)
    requires
        map.wf(),
        screen_fits(*camera),
    ensures
        commands@ == scene(*map, *camera, entity_points@.to_set(), glyphs),
{
    let mut commands: Vec<DrawCommand> = Vec::new();
    let left: i64 = camera.left_x as i64;
    let right: i64 = camera.right_x as i64;
    let top: i64 = camera.top_y as i64;
    let bottom: i64 = camera.bottom_y as i64;
    let mut y: i64 = top;
    while y <= bottom
        invariant
            map.wf(),
            screen_fits(*camera),
            left == camera.left_x,
            right == camera.right_x,
            top == camera.top_y,
            bottom == camera.bottom_y,
            top <= y,
            y <= bottom + 1 || y == top,
            commands@ == rows_scene(*map, *camera, entity_points@.to_set(), glyphs, y as int),
        decreases bottom + 1 - y,
    {
        let mut x: i64 = left;
        while x < right
            invariant
                map.wf(),
                screen_fits(*camera),
                left == camera.left_x,
                right == camera.right_x,
                top == camera.top_y,
                bottom == camera.bottom_y,
                top <= y <= bottom,
                left <= x,
                x <= right || x == left,
                commands@ == rows_scene(*map, *camera, entity_points@.to_set(), glyphs, y as int)
                    + row_scene(*map, *camera, entity_points@.to_set(), glyphs, y as int, x as int),
            decreases right - x,
        {
            if 0 <= x && x < SCREEN_WIDTH as i64 && 0 <= y && y < SCREEN_HEIGHT as i64 {
                let point = Point::new(x as i32, y as i32);
                if !contains_point(entity_points, point) {
                    let glyph = match map.tiles[map_index(point.x, point.y)] {
                        TileType::Floor => glyphs.floor,
                        TileType::Wall => glyphs.wall,
                    };
                    commands.push(
                        DrawCommand {
                            x: point.x - camera.left_x,
                            y: point.y - camera.top_y,
                            fg: Color::White,
                            bg: Color::Black,
                            glyph,
                        },
                    );
                }
            }
            x += 1;
        }
        y += 1;
    }
    commands
}

/// The command that draws the tile at `(x, y)` when the whole map is drawn
/// as it is: at its own position, a floor in yellow, a wall in green, both on
/// black.
pub open spec fn full_command(grid: TileGrid, glyphs: TileGlyphs, x: int, y: int) -> DrawCommand {
    match grid.tile_at(x, y) {
        TileType::Floor => DrawCommand {
            x: x as i32,
            y: y as i32,
            fg: Color::Yellow,
            bg: Color::Black,
            glyph: glyphs.floor,
        },
        TileType::Wall => DrawCommand {
            x: x as i32,
            y: y as i32,
            fg: Color::Green,
            bg: Color::Black,
            glyph: glyphs.wall,
        },
    }
}

/// The whole map as draw commands, row by row: the command of the tile at
/// `(x, y)` stands at that tile's index.
pub open spec fn full_scene(grid: TileGrid, glyphs: TileGlyphs) -> Seq<DrawCommand> {
    Seq::new(
        NUM_TILES as nat,
        |k: int| full_command(grid, glyphs, k % (SCREEN_WIDTH as int), k / (SCREEN_WIDTH as int)),
    )
}

impl TileGrid {
    /// Draws the whole map with the given glyphs, without a camera and without
    /// a look at the entities: one command for each tile, row by row.
    pub fn compose_full(&self, glyphs: TileGlyphs) -> (commands: Vec<DrawCommand>)
        requires
            self.wf(),
        ensures
            commands@ == full_scene(*self, glyphs),
    {
        let mut commands: Vec<DrawCommand> = Vec::with_capacity(NUM_TILES);
        let mut y: i32 = 0;
        while y < SCREEN_HEIGHT
            invariant
                self.wf(),
                0 <= y <= SCREEN_HEIGHT,
                commands@.len() == y * SCREEN_WIDTH,
                forall|k: int|
                    0 <= k < commands@.len() ==> commands@[k] == full_scene(*self, glyphs)[k],
            decreases SCREEN_HEIGHT - y,
        {
            let mut x: i32 = 0;
            while x < SCREEN_WIDTH
                invariant
                    self.wf(),
                    0 <= y < SCREEN_HEIGHT,
                    0 <= x <= SCREEN_WIDTH,
                    commands@.len() == y * SCREEN_WIDTH + x,
                    forall|k: int|
                        0 <= k < commands@.len() ==> commands@[k] == full_scene(*self, glyphs)[k],
                decreases SCREEN_WIDTH - x,
            {
                let command = match self.tiles[map_index(x, y)] {
                    TileType::Floor => DrawCommand {
                        x,
                        y,
                        fg: Color::Yellow,
                        bg: Color::Black,
                        glyph: glyphs.floor,
                    },
                    TileType::Wall => DrawCommand {
                        x,
                        y,
                        fg: Color::Green,
                        bg: Color::Black,
                        glyph: glyphs.wall,
                    },
                };
                commands.push(command);
                x += 1;
            }
            y += 1;
        }
        assert(commands@ =~= full_scene(*self, glyphs));
        commands
    }

    /// Draws the whole map, a floor as the glyph of '.', a wall as the glyph
    /// of '#'.
    pub fn render_full(&self) -> (commands: Vec<DrawCommand>)
        requires
            self.wf(),
        ensures
            commands@ == full_scene(
                *self,
                (TileGlyphs { floor: glyph_code('.'), wall: glyph_code('#') }),
            ),
    {
        let glyphs = TileGlyphs { floor: glyph_for('.'), wall: glyph_for('#') };
        self.compose_full(glyphs)
    }
}

/// The scene that the map system draws: the tiles on the map that the camera
/// sweeps and on which no entity of the store with a look stands, a floor as
/// the glyph of '.', a wall as the glyph of '#'.
pub fn map_render(ecs: &World, map: &TileGrid, camera: &Camera) -> (commands: Vec<DrawCommand>)
    requires
        map.wf(),
        screen_fits(*camera),
    ensures
        commands@ == scene(
            *map,
            *camera,
            occupied_positions(renderables(*ecs)),
            (TileGlyphs { floor: glyph_code('.'), wall: glyph_code('#') }),
        ),
{
    let entity_points = entity_points(ecs);
    let glyphs = TileGlyphs { floor: glyph_for('.'), wall: glyph_for('#') };
    compose_scene(&entity_points, map, camera, glyphs)
}

} // verus!
