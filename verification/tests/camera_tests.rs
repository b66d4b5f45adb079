use dungeon_crawler::camera::Camera;
use dungeon_crawler::geometry::{Point, DISPLAY_HEIGHT, DISPLAY_WIDTH};

#[test]
fn create_new_camera() {
    let player_position: Point = Point::new(10, 10);
    let camera: Camera = Camera::new(player_position);

    assert_eq!(camera.left_x, -10);
    assert_eq!(camera.right_x, 30);
    assert_eq!(camera.top_y, -2);
    assert_eq!(camera.bottom_y, 22);
}

#[test]
fn on_player_move() {
    let player_position: Point = Point::new(10, 10);
    let mut camera: Camera = Camera::new(player_position);

    assert_eq!(camera.left_x, -10);
    assert_eq!(camera.right_x, 30);
    assert_eq!(camera.top_y, -2);
    assert_eq!(camera.bottom_y, 22);

    let new_position: Point = Point::new(9, 10);
    camera.on_player_move(new_position);

    assert_eq!(camera.left_x, -11);
    assert_eq!(camera.right_x, 29);
    assert_eq!(camera.top_y, -2);
    assert_eq!(camera.bottom_y, 22);

    let another_position: Point = Point::new(9, 9);
    camera.on_player_move(another_position);

    assert_eq!(camera.left_x, -11);
    assert_eq!(camera.right_x, 29);
    assert_eq!(camera.top_y, -3);
    assert_eq!(camera.bottom_y, 21);
}

#[test]
fn camera_bounds_follow_the_formula() {
    for &(fx, fy) in [(0, 0), (-7, 13), (1000, -1000), (79, 49)].iter() {
        let camera = Camera::new(Point::new(fx, fy));
        assert_eq!(camera.left_x, fx - DISPLAY_WIDTH / 2);
        assert_eq!(camera.right_x, fx + DISPLAY_WIDTH / 2);
        assert_eq!(camera.top_y, fy - DISPLAY_HEIGHT / 2);
        assert_eq!(camera.bottom_y, fy + DISPLAY_HEIGHT / 2);
    }
}

#[test]
fn camera_at_the_edge_of_the_integers() {
    let camera = Camera::new(Point::new(i32::MAX - 20, i32::MIN + 12));
    assert_eq!(camera.right_x, i32::MAX);
    assert_eq!(camera.left_x, i32::MAX - 40);
    assert_eq!(camera.top_y, i32::MIN);
    assert_eq!(camera.bottom_y, i32::MIN + 24);
}

#[test]
fn moving_twice_to_one_focus_is_moving_once() {
    let mut once = Camera::new(Point::new(3, 4));
    once.on_player_move(Point::new(40, 25));
    let mut twice = Camera::new(Point::new(-9, 80));
    twice.on_player_move(Point::new(40, 25));
    twice.on_player_move(Point::new(40, 25));
    assert_eq!(once, twice);
    assert_eq!(once, Camera::new(Point::new(40, 25)));
    assert_eq!(once, Camera { left_x: 20, right_x: 60, top_y: 13, bottom_y: 37 });
}
