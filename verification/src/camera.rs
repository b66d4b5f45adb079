//! The camera: the window of world space that is visible around a focus.

use vstd::prelude::*;
use crate::geometry::{Point, DISPLAY_WIDTH, DISPLAY_HEIGHT};

verus! {

/// The visible window, in world coordinates.
#[derive(Clone, Copy, PartialEq, Eq, Debug, Structural)]
pub struct Camera {
    pub left_x: i32,
    pub right_x: i32,
    pub top_y: i32,
    pub bottom_y: i32,
}

/// The window around the focus `(fx, fy)`: half the display to each side.
pub open spec fn window(fx: int, fy: int) -> (int, int, int, int) {
    (
        fx - DISPLAY_WIDTH / 2,
        fx + DISPLAY_WIDTH / 2,
        fy - DISPLAY_HEIGHT / 2,
        fy + DISPLAY_HEIGHT / 2,
    )
}

/// Whether the window around `(fx, fy)` can be held in a `Camera`.
pub open spec fn focus_fits(fx: int, fy: int) -> bool {
    &&& i32::MIN <= fx - DISPLAY_WIDTH / 2
    &&& fx + DISPLAY_WIDTH / 2 <= i32::MAX
    &&& i32::MIN <= fy - DISPLAY_HEIGHT / 2
    &&& fy + DISPLAY_HEIGHT / 2 <= i32::MAX
}

impl Camera {
    /// The four bounds, as integers: left, right, top, bottom.
    pub open spec fn bounds(&self) -> (int, int, int, int) {
        (self.left_x as int, self.right_x as int, self.top_y as int, self.bottom_y as int)
    }

    /// The camera centred on `focus`.
    pub open spec fn centred_on(focus: Point) -> Camera {
        Camera {
            left_x: (focus.x - DISPLAY_WIDTH / 2) as i32,
            right_x: (focus.x + DISPLAY_WIDTH / 2) as i32,
            top_y: (focus.y - DISPLAY_HEIGHT / 2) as i32,
            bottom_y: (focus.y + DISPLAY_HEIGHT / 2) as i32,
        }
    }

    /// The camera that a move to `focus` leaves: centred on `focus`, whatever
    /// it showed before.
    pub open spec fn moved(self, focus: Point) -> Camera {
        Camera::centred_on(focus)
    }

    /// The camera centred on `player_position`.
    pub fn new(player_position: Point) -> (camera: Camera)
        requires
            focus_fits(player_position.x as int, player_position.y as int),
        ensures
            camera.bounds() == window(player_position.x as int, player_position.y as int),
            camera == Camera::centred_on(player_position),
            camera.left_x == player_position.x - DISPLAY_WIDTH / 2,
            camera.right_x == player_position.x + DISPLAY_WIDTH / 2,
            camera.top_y == player_position.y - DISPLAY_HEIGHT / 2,
            camera.bottom_y == player_position.y + DISPLAY_HEIGHT / 2,
    {
        Camera {
            left_x: player_position.x - DISPLAY_WIDTH / 2,
            right_x: player_position.x + DISPLAY_WIDTH / 2,
            top_y: player_position.y - DISPLAY_HEIGHT / 2,
            bottom_y: player_position.y + DISPLAY_HEIGHT / 2,
        }
    }

    /// Moves the camera so that it is centred on `player_position`. What it
    /// showed before has no part in the result.
    pub fn on_player_move(&mut self, player_position: Point)
        requires
            focus_fits(player_position.x as int, player_position.y as int),
        ensures
            final(self).bounds() == window(player_position.x as int, player_position.y as int),
            *final(self) == old(self).moved(player_position),
    {
        self.left_x = player_position.x - DISPLAY_WIDTH / 2;
        self.right_x = player_position.x + DISPLAY_WIDTH / 2;
        self.top_y = player_position.y - DISPLAY_HEIGHT / 2;
        self.bottom_y = player_position.y + DISPLAY_HEIGHT / 2;
    }
}

/// Moving a camera to a focus a second time changes nothing: it stands where
/// the first move put it, and where any other camera moved there stands.
pub proof fn lemma_move_idempotent(camera: Camera, other: Camera, focus: Point)
    ensures
        camera.moved(focus).moved(focus) == camera.moved(focus),
        camera.moved(focus) == other.moved(focus),
        camera.moved(focus) == Camera::centred_on(focus),
        focus_fits(focus.x as int, focus.y as int) ==> camera.moved(focus).bounds() == window(
            focus.x as int,
            focus.y as int,
        ),
{
}

} // verus!
