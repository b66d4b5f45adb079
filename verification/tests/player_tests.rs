use dungeon_crawler::camera::Camera;
use dungeon_crawler::geometry::Point;
use dungeon_crawler::map::{map_index, TileGrid, TileType};
use dungeon_crawler::player::{resolve_move, Intent, Player};
use dungeon_crawler::scene::Color;

#[test]
fn create_new_player() {
    let position: Point = Point::new(1, 1);
    let player: Player = Player::new(position);

    assert_eq!(player.position.x, 1);
    assert_eq!(player.position.y, 1);
}

#[test]
fn update_player_position() {
    let position: Point = Point::new(1, 1);
    let mut player: Player = Player::new(position);
    let map: TileGrid = TileGrid::new();
    let mut camera: Camera = Camera::new(position);

    player.update(Some(Intent::Left), &map, &mut camera);

    assert_eq!(player.position.x, 0);
    assert_eq!(player.position.y, 1);

    player.update(Some(Intent::Right), &map, &mut camera);

    assert_eq!(player.position.x, 1);
    assert_eq!(player.position.y, 1);

    player.update(Some(Intent::Up), &map, &mut camera);

    assert_eq!(player.position.x, 1);
    assert_eq!(player.position.y, 0);

    player.update(Some(Intent::Down), &map, &mut camera);

    assert_eq!(player.position.x, 1);
    assert_eq!(player.position.y, 1);
}

#[test]
fn blocked_move_is_refused() {
    let mut map = TileGrid::new();
    map.tiles[map_index(0, 1)] = TileType::Wall;
    let mut player = Player::new(Point::new(1, 1));
    let mut camera = Camera::new(Point::new(1, 1));
    let before = camera;

    player.update(Some(Intent::Left), &map, &mut camera);

    assert_eq!(player.position, Point::new(1, 1));
    assert_eq!(camera, before);
}

#[test]
fn move_off_the_map_is_refused() {
    let map = TileGrid::new();
    let mut camera = Camera::new(Point::new(0, 0));
    let before = camera;

    let mut player = Player::new(Point::new(0, 0));
    player.update(Some(Intent::Left), &map, &mut camera);
    assert_eq!(player.position, Point::new(0, 0));
    player.update(Some(Intent::Up), &map, &mut camera);
    assert_eq!(player.position, Point::new(0, 0));

    let mut player = Player::new(Point::new(79, 49));
    player.update(Some(Intent::Right), &map, &mut camera);
    assert_eq!(player.position, Point::new(79, 49));
    player.update(Some(Intent::Down), &map, &mut camera);
    assert_eq!(player.position, Point::new(79, 49));

    let mut player = Player::new(Point::new(i32::MAX, i32::MIN));
    player.update(Some(Intent::Right), &map, &mut camera);
    assert_eq!(player.position, Point::new(i32::MAX, i32::MIN));
    player.update(Some(Intent::Up), &map, &mut camera);
    assert_eq!(player.position, Point::new(i32::MAX, i32::MIN));
    assert_eq!(camera, before);
}

#[test]
fn no_intent_changes_nothing() {
    let map = TileGrid::new();
    let mut player = Player::new(Point::new(4, 4));
    let mut camera = Camera::new(Point::new(30, 30));
    let before = camera;
    player.update(None, &map, &mut camera);
    assert_eq!(player.position, Point::new(4, 4));
    assert_eq!(camera, before);
}

#[test]
fn accepted_move_centres_the_camera() {
    let map = TileGrid::new();
    let mut player = Player::new(Point::new(10, 10));
    let mut camera = Camera::new(Point::new(50, 40));
    player.update(Some(Intent::Left), &map, &mut camera);
    assert_eq!(player.position, Point::new(9, 10));
    assert_eq!(camera, Camera { left_x: -11, right_x: 29, top_y: -2, bottom_y: 22 });
}

#[test]
fn intent_without_direction_keeps_the_position() {
    let map = TileGrid::new();
    let mut player = Player::new(Point::new(10, 10));
    let mut camera = Camera::new(Point::new(50, 40));
    player.update(Some(Intent::Other), &map, &mut camera);
    assert_eq!(player.position, Point::new(10, 10));
    assert_eq!(camera, Camera::new(Point::new(10, 10)));

    let mut outside = Player::new(Point::new(-5, 200));
    let mut camera = Camera::new(Point::new(50, 40));
    outside.update(Some(Intent::Other), &map, &mut camera);
    assert_eq!(outside.position, Point::new(-5, 200));
    assert_eq!(camera, Camera::new(Point::new(50, 40)));
}

#[test]
fn player_is_drawn_relative_to_the_camera() {
    let player = Player::new(Point::new(10, 10));
    let camera = Camera::new(Point::new(12, 9));
    let command = player.render(&camera);
    assert_eq!(command.x, 18);
    assert_eq!(command.y, 13);
    assert_eq!(command.fg, Color::White);
    assert_eq!(command.bg, Color::Black);
    assert_eq!(command.glyph, 64);
}

#[test]
fn resolve_move_gives_the_target_or_nothing() {
    let mut map = TileGrid::new();
    map.tiles[map_index(2, 1)] = TileType::Wall;
    let at = Point::new(1, 1);
    assert_eq!(resolve_move(at, Some(Intent::Left), &map), Some(Point::new(0, 1)));
    assert_eq!(resolve_move(at, Some(Intent::Up), &map), Some(Point::new(1, 0)));
    assert_eq!(resolve_move(at, Some(Intent::Down), &map), Some(Point::new(1, 2)));
    assert_eq!(resolve_move(at, Some(Intent::Right), &map), None);
    assert_eq!(resolve_move(at, Some(Intent::Other), &map), Some(at));
    assert_eq!(resolve_move(at, None, &map), None);
    assert_eq!(resolve_move(Point::new(2, 1), Some(Intent::Other), &map), None);
    assert_eq!(resolve_move(Point::new(-1, 5), Some(Intent::Right), &map), Some(Point::new(0, 5)));
    assert_eq!(resolve_move(Point::new(i32::MIN, 5), Some(Intent::Left), &map), None);
    assert_eq!(resolve_move(Point::new(5, i32::MAX), Some(Intent::Down), &map), None);
}

#[test]
fn blocked_move_then_free_move() {
    let mut map = TileGrid::new();
    map.tiles[map_index(0, 1)] = TileType::Wall;
    let mut player = Player::new(Point::new(1, 1));
    let mut camera = Camera::new(Point::new(1, 1));
    player.update(Some(Intent::Left), &map, &mut camera);
    assert_eq!(player.position, Point::new(1, 1));
    player.update(Some(Intent::Down), &map, &mut camera);
    assert_eq!(player.position, Point::new(1, 2));
    assert_eq!(camera, Camera::new(Point::new(1, 2)));
}
