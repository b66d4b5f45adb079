//! Movement: one directional intent, resolved against the map, moves the
//! player and the camera that follows it, or changes nothing.

use vstd::prelude::*;
use crate::camera::Camera;
use crate::geometry::Point;
use crate::map::TileGrid;
use crate::scene::{glyph_for, glyph_code, Color, DrawCommand};

verus! {

/// What a key press asks for. Keys that ask for no direction are `Other`.
#[derive(Clone, Copy, PartialEq, Eq, Debug, Structural)]
pub enum Intent {
    Left,
    Right,
    Up,
    Down,
    Other,
}

/// The step that an intent asks for: one tile in its direction, and none for
/// an intent without a direction.
pub open spec fn delta(intent: Intent) -> (int, int) {
    match intent {
        Intent::Left => (-1, 0),
        Intent::Right => (1, 0),
        Intent::Up => (0, -1),
        Intent::Down => (0, 1),
        Intent::Other => (0, 0),
    }
}

/// The player: the entity that the camera follows.
#[derive(Clone, Copy, PartialEq, Eq, Debug, Structural)]
pub struct Player {
    pub position: Point,
}

/// Where the step of `intent` would take an entity at `position`. It may lie
/// off the map, and beyond what a `Point` can hold.
pub open spec fn candidate(position: Point, intent: Intent) -> (int, int) {
    (position.x + delta(intent).0, position.y + delta(intent).1)
}

/// Where `intent` moves an entity at `position` on `grid`: to the candidate,
/// if there is an intent and the candidate's tile can be entered; nowhere
/// otherwise.
pub open spec fn resolved(position: Point, intent: Option<Intent>, grid: TileGrid) -> Option<Point> {
    match intent {
        Some(i) if grid.enterable(candidate(position, i).0, candidate(position, i).1) => Some(
            Point { x: candidate(position, i).0 as i32, y: candidate(position, i).1 as i32 },
        ),
        _ => None,
    }
}

/// Resolves one intent of an entity at `position`: the position to move to, or
/// `None` where the step is refused or there is no intent.
pub fn resolve_move(position: Point, intent: Option<Intent>, map: &TileGrid) -> (next: Option<Point>)
    requires
        map.wf(),
    ensures
        next == resolved(position, intent, *map),
{
    if let Some(direction) = intent {
        let (dx, dy): (i64, i64) = match direction {
            Intent::Left => (-1, 0),
            Intent::Right => (1, 0),
            Intent::Up => (0, -1),
            Intent::Down => (0, 1),
            Intent::Other => (0, 0),
        };
        let nx: i64 = position.x as i64 + dx;
        let ny: i64 = position.y as i64 + dy;
        if i32::MIN as i64 <= nx && nx <= i32::MAX as i64 && i32::MIN as i64 <= ny && ny
            <= i32::MAX as i64 {
            let target = Point::new(nx as i32, ny as i32);
            if map.can_enter_tile(target) {
                return Some(target);
            }
        }
    }
    None
}

impl Player {
    /// Whether `intent` moves the player on `grid`: there is an intent, and the
    /// tile it leads to can be entered.
    pub open spec fn accepts(self, intent: Option<Intent>, grid: TileGrid) -> bool {
        resolved(self.position, intent, grid).is_some()
    }

    /// The player after `intent` on `grid`: moved by one step where the move is
    /// accepted, unchanged where it is not.
    pub open spec fn stepped(self, intent: Option<Intent>, grid: TileGrid) -> Player {
        match resolved(self.position, intent, grid) {
            Some(position) => Player { position },
            None => self,
        }
    }

    /// A player at `position`.
    pub fn new(position: Point) -> (player: Player)
        ensures
            player.position == position,
    {
        Player { position }
    }

    /// The draw command that shows the player: its glyph, white on black, at
    /// the player's place relative to the camera's top left corner.
    pub fn render(&self, camera: &Camera) -> (command: DrawCommand)
        requires
            i32::MIN <= self.position.x - camera.left_x <= i32::MAX,
            i32::MIN <= self.position.y - camera.top_y <= i32::MAX,
        ensures
            command == (DrawCommand {
                x: (self.position.x - camera.left_x) as i32,
                y: (self.position.y - camera.top_y) as i32,
                fg: Color::White,
                bg: Color::Black,
                glyph: glyph_code('@'),
            }),
    {
        DrawCommand {
            x: self.position.x - camera.left_x,
            y: self.position.y - camera.top_y,
            fg: Color::White,
            bg: Color::Black,
            glyph: glyph_for('@'),
        }
    }

    /// Resolves one intent. Without an intent nothing happens. Otherwise the
    /// player takes the step if the tile it leads to can be entered, and the
    /// camera is then centred on the new position; a step that is refused
    /// leaves player and camera as they were.
    pub fn update(&mut self, key: Option<Intent>, map: &TileGrid, camera: &mut Camera)
        requires
            map.wf(),
        ensures
            *final(self) == old(self).stepped(key, *map),
            old(self).accepts(key, *map) ==> *final(camera) == old(camera).moved(
                final(self).position,
            ),
            !old(self).accepts(key, *map) ==> *final(camera) == *old(camera),
    {
        if let Some(new_position) = resolve_move(self.position, key, map) {
            self.position = new_position;
            camera.on_player_move(new_position);
        }
    }
}

/// A step and the step back bring a player to where it stood, provided both
/// tiles can be entered.
pub proof fn lemma_step_and_back(player: Player, there: Intent, back: Intent, grid: TileGrid)
    requires
        delta(there).0 + delta(back).0 == 0,
        delta(there).1 + delta(back).1 == 0,
        player.accepts(Some(there), grid),
        grid.enterable(player.position.x as int, player.position.y as int),
    ensures
        player.stepped(Some(there), grid).stepped(Some(back), grid) == player,
{
}

/// A refused move changes nothing, and so does the absence of an intent.
pub proof fn lemma_refused_move_stays(player: Player, intent: Option<Intent>, grid: TileGrid)
    requires
        !player.accepts(intent, grid),
    ensures
        player.stepped(intent, grid) == player,
        player.stepped(None, grid) == player,
{
}

/// A player that moved stands on a floor tile of the map.
pub proof fn lemma_moved_player_on_floor(player: Player, intent: Option<Intent>, grid: TileGrid)
    requires
        player.accepts(intent, grid),
    ensures
        grid.enterable(
            player.stepped(intent, grid).position.x as int,
            player.stepped(intent, grid).position.y as int,
        ),
{
}

} // verus!
