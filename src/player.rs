//! The player: a position on a plane whose origin is the centre of the
//! screen, a sprite region, a speed and a heading. Arrow-key presses set the
//! heading and start the player moving; releasing an arrow key stops it.

use vstd::prelude::*;
use crate::geometry::{Point, Rect, clamp_position, MAX_COORD, MIN_COORD};

verus! {

/// Distance the player covers in one frame while moving.
pub const PLAYER_SPEED: i32 = 20;

/// Width of the player's sprite region.
pub const SPRITE_WIDTH: u32 = 26;

/// Height of the player's sprite region.
pub const SPRITE_HEIGHT: u32 = 36;

/// The way the player faces and moves.
#[derive(Clone, Copy, Debug, PartialEq, Eq, Structural)]
pub enum Direction {
    Up,
    Down,
    Left,
    Right,
}

/// A key of the keyboard, as far as the game tells keys apart.
#[derive(Clone, Copy, Debug, PartialEq, Eq, Structural)]
pub enum Key {
    Left,
    Right,
    Up,
    Down,
    Other,
}

/// An input event, as far as the game tells events apart.
#[derive(Clone, Copy, Debug, PartialEq, Eq, Structural)]
pub enum Event {
    /// The window was closed or the application asked to stop.
    Quit,
    /// A key went down; `repeat` marks a press generated by holding the key.
    KeyDown { keycode: Option<Key>, repeat: bool },
    /// A key went up.
    KeyUp { keycode: Option<Key>, repeat: bool },
    /// Any other event.
    Other,
}

/// The heading an arrow key stands for; `None` for any other key.
pub open spec fn arrow_direction(k: Key) -> Option<Direction> {
    match k {
        Key::Left => Some(Direction::Left),
        Key::Right => Some(Direction::Right),
        Key::Up => Some(Direction::Up),
        Key::Down => Some(Direction::Down),
        Key::Other => None,
    }
}

/// The heading an event sets: a first (not repeated) press of an arrow key.
pub open spec fn pressed_arrow(e: Event) -> Option<Direction> {
    match e {
        Event::KeyDown { keycode: Some(k), repeat: false } => arrow_direction(k),
        _ => None,
    }
}

/// The event is a first (not repeated) release of an arrow key.
pub open spec fn released_arrow(e: Event) -> bool {
    match e {
        Event::KeyUp { keycode: Some(k), repeat: false } => arrow_direction(k) is Some,
        _ => false,
    }
}

#[derive(Clone, Copy, Debug, PartialEq, Eq, Structural)]
pub struct Player {
    pub position: Point,
    pub sprite: Rect,
    pub speed: i32,
    pub direction: Direction,
}

/// The player after handling one event.
pub open spec fn after_input(p: Player, e: Event) -> Player {
    if let Some(d) = pressed_arrow(e) {
        Player { speed: PLAYER_SPEED, direction: d, ..p }
    } else if released_arrow(e) {
        Player { speed: 0, ..p }
    } else {
        p
    }
}

/// The position after one frame of movement at `speed` towards `d`.
pub open spec fn moved(pos: Point, d: Direction, speed: int) -> Point {
    match d {
        Direction::Left => pos.offset_spec(-speed, 0),
        Direction::Right => pos.offset_spec(speed, 0),
        Direction::Up => pos.offset_spec(0, -speed),
        Direction::Down => pos.offset_spec(0, speed),
    }
}

/// The player after one frame of movement.
pub open spec fn after_update(p: Player) -> Player {
    Player { position: moved(p.position, p.direction, p.speed as int), ..p }
}

/// Where on the screen the player's centre lies, for an output of
/// `width` by `height`: the position shifted by half the output size.
pub open spec fn screen_position_spec(p: Player, width: int, height: int) -> Point {
    p.position.offset_spec(clamp_position(width / 2), clamp_position(height / 2))
}

/// Away from the coordinate limits, the player's screen position is its
/// position plus half the output's width and half its height, whatever the
/// output size.
pub proof fn lemma_screen_position_recentres(p: Player, width: u32, height: u32)
    requires
        width / 2 <= MAX_COORD,
        height / 2 <= MAX_COORD,
        MIN_COORD <= p.position.x + width / 2 <= MAX_COORD,
        MIN_COORD <= p.position.y + height / 2 <= MAX_COORD,
    ensures
        screen_position_spec(p, width as int, height as int).x == p.position.x + width / 2,
        screen_position_spec(p, width as int, height as int).y == p.position.y + height / 2,
{
}

impl Player {
    /// The player is either standing still or moving at `PLAYER_SPEED`.
    pub open spec fn wf(self) -> bool {
        self.speed == 0 || self.speed == PLAYER_SPEED
    }

    /// A player standing still at `position`, facing `direction`.
    pub fn new(position: Point, sprite: Rect, direction: Direction) -> (r: Player)
        ensures
            r.position == position,
            r.sprite == sprite,
            r.speed == 0,
            r.direction == direction,
            r.wf(),
    {
        Player { position, sprite, speed: 0, direction }
    }

    /// The player at the screen's centre, facing down, standing still, with
    /// the sprite region at the texture's top-left corner.
    pub fn spawn() -> (r: Player)
        ensures
            r.position == (Point { x: 0, y: 0 }),
            r.sprite == (Rect { x: 0, y: 0, w: SPRITE_WIDTH, h: SPRITE_HEIGHT }),
            r.speed == 0,
            r.direction == Direction::Down,
            r.wf(),
    {
        Player::new(Point::new(0, 0), Rect::new(0, 0, SPRITE_WIDTH, SPRITE_HEIGHT), Direction::Down)
    }

    /// Handles one event: a first press of an arrow key sets the heading
    /// and starts the player moving; a first release of an arrow key stops
    /// it and keeps the heading; every other event leaves the player as it
    /// was.
    pub fn input(&mut self, event: &Event)
        ensures
            *final(self) == after_input(*old(self), *event),
            pressed_arrow(*event) is Some ==> final(self).speed == PLAYER_SPEED
                && final(self).direction == pressed_arrow(*event)->Some_0,
            released_arrow(*event) ==> final(self).speed == 0
                && final(self).direction == old(self).direction,
            final(self).position == old(self).position,
            final(self).sprite == old(self).sprite,
            old(self).wf() ==> final(self).wf(),
    {
        match event {
            Event::KeyDown { keycode: Some(Key::Left), repeat: false } => {
                self.speed = PLAYER_SPEED;
                self.direction = Direction::Left;
            },
            Event::KeyDown { keycode: Some(Key::Right), repeat: false } => {
                self.speed = PLAYER_SPEED;
                self.direction = Direction::Right;
            },
            Event::KeyDown { keycode: Some(Key::Up), repeat: false } => {
                self.speed = PLAYER_SPEED;
                self.direction = Direction::Up;
            },
            Event::KeyDown { keycode: Some(Key::Down), repeat: false } => {
                self.speed = PLAYER_SPEED;
                self.direction = Direction::Down;
            },
            Event::KeyUp { keycode: Some(Key::Left), repeat: false }
            | Event::KeyUp { keycode: Some(Key::Right), repeat: false }
            | Event::KeyUp { keycode: Some(Key::Up), repeat: false }
            | Event::KeyUp { keycode: Some(Key::Down), repeat: false } => {
                self.speed = 0;
            },
            _ => {},
        }
    }

    /// Moves the player by its speed along its heading (up is towards
    /// smaller `y`); a coordinate stops at the coordinate limits.
    pub fn update(&mut self)
        requires
            old(self).wf(),
        ensures
            *final(self) == after_update(*old(self)),
            final(self).wf(),
    {
        match self.direction {
            Direction::Left => {
                self.position = self.position.offset(-self.speed, 0);
            },
            Direction::Right => {
                self.position = self.position.offset(self.speed, 0);
            },
            Direction::Up => {
                self.position = self.position.offset(0, -self.speed);
            },
            Direction::Down => {
                self.position = self.position.offset(0, self.speed);
            },
        }
    }

    /// Where the player's centre lies on a screen of `width` by `height`
    /// whose centre is the origin of the player's plane.
    pub fn screen_position(&self, width: u32, height: u32) -> (r: Point)
        ensures
            r == screen_position_spec(*self, width as int, height as int),
    {
        let half = Point::new((width / 2) as i32, (height / 2) as i32);
        self.position.add(half)
    }

    /// The screen rectangle the sprite is drawn into: the sprite's size,
    /// centred on `screen_position`.
    pub fn screen_rect(&self, width: u32, height: u32) -> (r: Rect)
        ensures
            r == Rect::centered_spec(
                screen_position_spec(*self, width as int, height as int),
                self.sprite.w as int,
                self.sprite.h as int,
            ),
    {
        let center = self.screen_position(width, height);
        Rect::from_center(center, self.sprite.width(), self.sprite.height())
    }
}

} // verus!
