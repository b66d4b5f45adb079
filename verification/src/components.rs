//! What an entity in the store is made of, besides its position.

use vstd::prelude::*;
use crate::scene::Color;

verus! {

/// How an entity looks: a glyph in two colours.
#[derive(Clone, Copy, PartialEq, Eq, Debug, Structural)]
pub struct Render {
    pub fg: Color,
    pub bg: Color,
    pub glyph: u16,
}

/// A component that only marks what an entity is. It is neither a position
/// nor a look.
pub trait Marker {

}

/// Marks the entity that the player controls.
#[derive(Clone, Copy, PartialEq, Eq, Debug, Structural)]
pub struct Hero {}

/// Marks a monster.
#[derive(Clone, Copy, PartialEq, Eq, Debug, Structural)]
pub struct Enemy {}

impl Marker for Hero {

}

impl Marker for Enemy {

}

} // verus!
