use walker::geometry::{Point, Rect};
use walker::player::{Direction, Event, Key, Player, PLAYER_SPEED};

fn down(k: Key) -> Event {
    Event::KeyDown { keycode: Some(k), repeat: false }
}

fn up(k: Key) -> Event {
    Event::KeyUp { keycode: Some(k), repeat: false }
}

#[test]
fn spawn_stands_still_facing_down() {
    let p = Player::spawn();
    assert_eq!(p.position, Point { x: 0, y: 0 });
    assert_eq!(p.sprite, Rect { x: 0, y: 0, w: 26, h: 36 });
    assert_eq!(p.speed, 0);
    assert_eq!(p.direction, Direction::Down);
}

#[test]
fn update_at_rest_does_not_move() {
    let mut p = Player::new(Point::new(0, 0), Rect::new(0, 0, 26, 36), Direction::Down);
    p.update();
    assert_eq!(p.position, Point { x: 0, y: 0 });
}

#[test]
fn right_press_then_update_moves_right() {
    let mut p = Player::spawn();
    p.input(&down(Key::Right));
    p.update();
    assert_eq!(p.position, Point { x: PLAYER_SPEED, y: 0 });
    assert_eq!(p.position, Point { x: 20, y: 0 });
}

#[test]
fn each_heading_moves_along_its_axis() {
    let cases = [
        (Key::Left, Point { x: -20, y: 0 }),
        (Key::Right, Point { x: 20, y: 0 }),
        (Key::Up, Point { x: 0, y: -20 }),
        (Key::Down, Point { x: 0, y: 20 }),
    ];
    for (k, expected) in cases {
        let mut p = Player::spawn();
        p.input(&down(k));
        p.update();
        assert_eq!(p.position, expected);
    }
}

#[test]
fn presses_keep_last_arrow() {
    let mut p = Player::spawn();
    for k in [Key::Left, Key::Up, Key::Right] {
        p.input(&down(k));
    }
    assert_eq!(p.direction, Direction::Right);
    assert_eq!(p.speed, PLAYER_SPEED);
    p.input(&down(Key::Other));
    p.input(&Event::KeyDown { keycode: Some(Key::Up), repeat: true });
    p.input(&Event::KeyDown { keycode: None, repeat: false });
    assert_eq!(p.direction, Direction::Right);
    assert_eq!(p.speed, PLAYER_SPEED);
}

#[test]
fn release_stops_and_keeps_heading() {
    for released in [Key::Left, Key::Right, Key::Up, Key::Down] {
        let mut p = Player::spawn();
        p.input(&down(Key::Left));
        p.update();
        p.input(&up(released));
        assert_eq!(p.speed, 0);
        assert_eq!(p.direction, Direction::Left);
        assert_eq!(p.position, Point { x: -20, y: 0 });
        p.update();
        assert_eq!(p.position, Point { x: -20, y: 0 });
    }
}

#[test]
fn other_events_are_ignored() {
    let mut p = Player::spawn();
    p.input(&down(Key::Up));
    let before = p;
    p.input(&up(Key::Other));
    p.input(&Event::KeyUp { keycode: Some(Key::Up), repeat: true });
    p.input(&Event::KeyUp { keycode: None, repeat: false });
    p.input(&Event::Other);
    p.input(&Event::Quit);
    assert_eq!(p, before);
}

#[test]
fn movement_stops_at_coordinate_limit() {
    let mut p = Player::new(Point::new(1073741810, 0), Rect::new(0, 0, 26, 36), Direction::Down);
    p.input(&down(Key::Right));
    p.update();
    assert_eq!(p.position, Point { x: 1073741823, y: 0 });
}

#[test]
fn screen_position_centres_origin_800_by_600() {
    let p = Player::spawn();
    assert_eq!(p.screen_position(800, 600), Point { x: 400, y: 300 });
    let q = Player::new(Point::new(-30, 45), Rect::new(0, 0, 26, 36), Direction::Up);
    assert_eq!(q.screen_position(800, 600), Point { x: 370, y: 345 });
}

#[test]
fn screen_position_centres_origin_1024_by_768() {
    let p = Player::spawn();
    assert_eq!(p.screen_position(1024, 768), Point { x: 512, y: 384 });
    let q = Player::new(Point::new(-30, 45), Rect::new(0, 0, 26, 36), Direction::Up);
    assert_eq!(q.screen_position(1024, 768), Point { x: 482, y: 429 });
}

#[test]
fn screen_rect_is_sprite_centred_on_screen_position() {
    let p = Player::spawn();
    assert_eq!(p.screen_rect(800, 600), Rect { x: 387, y: 282, w: 26, h: 36 });
    let q = Player::new(Point::new(20, -20), Rect::new(0, 0, 26, 36), Direction::Up);
    assert_eq!(q.screen_rect(1024, 768), Rect { x: 519, y: 346, w: 26, h: 36 });
}
