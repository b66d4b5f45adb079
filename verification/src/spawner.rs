//! Putting the player and the monsters into the entity store.

use vstd::prelude::*;
use bracket_lib::prelude::RandomNumberGenerator;
use legion::World;
use crate::components::{Enemy, Hero, Render};
use crate::geometry::Point;
use crate::scene::{glyph_code, glyph_for, Color};
use crate::store::{push_entity, renderables};

verus! {

/// `bracket_lib::prelude::RandomNumberGenerator`, a source of random numbers.
/// Nothing of its inside is seen here.
#[verifier::external_type_specification]
#[verifier::external_body]
pub struct ExRandomNumberGenerator(bracket_lib::prelude::RandomNumberGenerator);

/// Calls `bracket_lib::prelude::RandomNumberGenerator::range`, which draws a
/// number that is at least `min` and less than `max`. Which one it draws is
/// left open.
#[verifier::external_body]
pub(crate) fn roll_in_range(rng: &mut RandomNumberGenerator, min: i32, max: i32) -> (roll: i32)
    requires
        min < max,
    ensures
        min <= roll < max,
{
    rng.range(min, max)
}

/// How the player looks: '@', white on black.
pub open spec fn player_look() -> Render {
    Render { fg: Color::White, bg: Color::Black, glyph: glyph_code('@') }
}

/// How the monster of a roll looks. The first three rolls from zero give an
/// ettin, an ogre and an orc; every other roll gives a goblin.
pub open spec fn monster_look(roll: int) -> Render {
    if roll == 0 {
        Render { fg: Color::Gray, bg: Color::Black, glyph: glyph_code('E') }
    } else if roll == 1 {
        Render { fg: Color::GreenYellow, bg: Color::Black, glyph: glyph_code('O') }
    } else if roll == 2 {
        Render { fg: Color::Yellow, bg: Color::Black, glyph: glyph_code('o') }
    } else {
        Render { fg: Color::Green, bg: Color::Black, glyph: glyph_code('g') }
    }
}

/// The look of the monster of a roll.
pub fn monster_render(roll: i32) -> (render: Render)
    ensures
        render == monster_look(roll as int),
{
    match roll {
        0 => Render { fg: Color::Gray, bg: Color::Black, glyph: glyph_for('E') },
        1 => Render { fg: Color::GreenYellow, bg: Color::Black, glyph: glyph_for('O') },
        2 => Render { fg: Color::Yellow, bg: Color::Black, glyph: glyph_for('o') },
        _ => Render { fg: Color::Green, bg: Color::Black, glyph: glyph_for('g') },
    }
}

/// Puts the player into the store at `pos`. The store then holds one more
/// entity with a look, the player's, at `pos`.
pub fn spawn_player(ecs: &mut World, pos: Point)
    ensures
        renderables(*final(ecs)) == renderables(*old(ecs)).insert((pos, player_look())),
{
    let render = Render { fg: Color::White, bg: Color::Black, glyph: glyph_for('@') };
    push_entity(ecs, Hero {  }, pos, render);
}

/// Puts a monster into the store at `pos`, of a kind that `rng` picks among
/// four. The store then holds one more entity with a look, that of one of the
/// four kinds, at `pos`.
pub fn spawn_monster(ecs: &mut World, rng: &mut RandomNumberGenerator, pos: Point)
    ensures
        exists|roll: int|
            0 <= roll < 4 && renderables(*final(ecs)) == #[trigger] renderables(*old(ecs)).insert(
                (pos, monster_look(roll)),
            ),
{
    let roll: i32 = roll_in_range(rng, 0, 4);
    let render = monster_render(roll);
    push_entity(ecs, Enemy {  }, pos, render);
    assert(renderables(*ecs) == renderables(*old(ecs)).insert((pos, monster_look(roll as int))));
}

} // verus!
