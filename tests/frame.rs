use walker::frame::{run_frame, Flow};
use walker::geometry::Point;
use walker::player::{Direction, Event, Key, Player};

fn down(k: Key) -> Event {
    Event::KeyDown { keycode: Some(k), repeat: false }
}

#[test]
fn frame_without_events_moves_player() {
    let mut p = Player::spawn();
    p.input(&down(Key::Up));
    assert_eq!(run_frame(&mut p, &vec![]), Flow::Continue);
    assert_eq!(p.position, Point { x: 0, y: -20 });
}

#[test]
fn frame_handles_events_in_order_then_moves() {
    let mut p = Player::spawn();
    let events = vec![down(Key::Left), Event::Other, down(Key::Right)];
    assert_eq!(run_frame(&mut p, &events), Flow::Continue);
    assert_eq!(p.direction, Direction::Right);
    assert_eq!(p.position, Point { x: 20, y: 0 });
}

#[test]
fn quit_stops_dispatch_and_movement() {
    let mut p = Player::spawn();
    let events = vec![down(Key::Left), Event::Quit, down(Key::Up), Event::KeyUp { keycode: Some(Key::Left), repeat: false }];
    assert_eq!(run_frame(&mut p, &events), Flow::Quit);
    assert_eq!(p.direction, Direction::Left);
    assert_eq!(p.speed, 20);
    assert_eq!(p.position, Point { x: 0, y: 0 });
}

#[test]
fn quit_first_leaves_player_untouched() {
    let mut p = Player::spawn();
    let before = p;
    assert_eq!(run_frame(&mut p, &vec![Event::Quit, down(Key::Right)]), Flow::Quit);
    assert_eq!(p, before);
}
