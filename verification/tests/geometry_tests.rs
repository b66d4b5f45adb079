use dungeon_crawler::geometry::{
    Point, DISPLAY_HEIGHT, DISPLAY_WIDTH, SCREEN_HEIGHT, SCREEN_WIDTH,
};

#[test]
fn points_hold_their_coordinates() {
    let p = Point::new(-3, 7);
    assert_eq!(p.x, -3);
    assert_eq!(p.y, 7);
    assert_eq!(Point::zero(), Point::new(0, 0));
    assert_eq!(Point::new(i32::MIN, i32::MAX), Point { x: i32::MIN, y: i32::MAX });
}

#[test]
fn display_is_half_the_screen() {
    assert_eq!(SCREEN_WIDTH, 80);
    assert_eq!(SCREEN_HEIGHT, 50);
    assert_eq!(DISPLAY_WIDTH, SCREEN_WIDTH / 2);
    assert_eq!(DISPLAY_HEIGHT, SCREEN_HEIGHT / 2);
}
