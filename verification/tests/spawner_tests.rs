use bracket_lib::prelude::RandomNumberGenerator;
use dungeon_crawler::components::{Enemy, Hero, Render};
use dungeon_crawler::geometry::Point;
use dungeon_crawler::scene::Color;
use dungeon_crawler::spawner::{monster_render, spawn_monster, spawn_player};
use legion::{IntoQuery, World};

fn looks(ecs: &World) -> Vec<(Point, Render)> {
    let mut query = <(&Point, &Render)>::query();
    query.iter(ecs).map(|(p, r)| (*p, *r)).collect()
}

#[test]
fn spawned_player_is_in_the_store() {
    let mut ecs = World::default();
    assert!(looks(&ecs).is_empty());
    spawn_player(&mut ecs, Point::new(3, 4));
    assert_eq!(
        looks(&ecs),
        vec![(Point::new(3, 4), Render { fg: Color::White, bg: Color::Black, glyph: 64 })]
    );
    let mut heroes = <(&Hero, &Point)>::query();
    assert_eq!(heroes.iter(&ecs).count(), 1);
    let mut enemies = <(&Enemy, &Point)>::query();
    assert_eq!(enemies.iter(&ecs).count(), 0);
}

#[test]
fn monster_looks_by_draw() {
    assert_eq!(monster_render(0), Render { fg: Color::Gray, bg: Color::Black, glyph: 69 });
    assert_eq!(monster_render(1), Render { fg: Color::GreenYellow, bg: Color::Black, glyph: 79 });
    assert_eq!(monster_render(2), Render { fg: Color::Yellow, bg: Color::Black, glyph: 111 });
    assert_eq!(monster_render(3), Render { fg: Color::Green, bg: Color::Black, glyph: 103 });
    assert_eq!(monster_render(-1), monster_render(3));
    assert_eq!(monster_render(i32::MAX), monster_render(3));
}

#[test]
fn spawned_monster_has_one_of_four_looks() {
    let mut rng = RandomNumberGenerator::seeded(42);
    let mut ecs = World::default();
    spawn_player(&mut ecs, Point::new(0, 0));
    for i in 0..50 {
        spawn_monster(&mut ecs, &mut rng, Point::new(i, 2 * i));
    }
    let all = looks(&ecs);
    assert_eq!(all.len(), 51);
    for i in 0..50 {
        let here: Vec<&(Point, Render)> =
            all.iter().filter(|(p, _)| *p == Point::new(i, 2 * i) && i != 0).collect();
        if i != 0 {
            assert_eq!(here.len(), 1);
            let render = here[0].1;
            assert!((0..4).any(|draw| monster_render(draw) == render));
        }
    }
    let mut enemies = <(&Enemy, &Point, &Render)>::query();
    assert_eq!(enemies.iter(&ecs).count(), 50);
}
