//! Integer points and rectangles with the coordinate limits of the rendering
//! layer: positions stay within half the `i32` range, sizes are at least one
//! and at most half the positive `i32` range.

use vstd::prelude::*;

verus! {

/// Largest coordinate a point or a rectangle corner may take.
pub const MAX_COORD: i32 = 1073741823;

/// Smallest coordinate a point or a rectangle corner may take.
pub const MIN_COORD: i32 = -1073741824;

/// Largest width or height of a rectangle.
pub const MAX_SIZE: u32 = 1073741823;

/// A coordinate brought into `[MIN_COORD, MAX_COORD]`.
pub open spec fn clamp_position(v: int) -> int {
    if v > MAX_COORD as int {
        MAX_COORD as int
    } else if v < MIN_COORD as int {
        MIN_COORD as int
    } else {
        v
    }
}

/// A size brought into `[1, MAX_SIZE]`.
pub open spec fn clamp_size(v: int) -> int {
    if v <= 0 {
        1
    } else if v > MAX_SIZE as int {
        MAX_SIZE as int
    } else {
        v
    }
}

fn clamp_coord(v: i64) -> (r: i32)
    ensures
        r as int == clamp_position(v as int),
{
    if v > MAX_COORD as i64 {
        MAX_COORD
    } else if v < MIN_COORD as i64 {
        MIN_COORD
    } else {
        v as i32
    }
}

fn clamp_extent(v: u32) -> (r: u32)
    ensures
        r as int == clamp_size(v as int),
{
    if v == 0 {
        1
    } else if v > MAX_SIZE {
        MAX_SIZE
    } else {
        v
    }
}

/// A point on the integer plane.
#[derive(Clone, Copy, Debug, PartialEq, Eq, Structural)]
pub struct Point {
    pub x: i32,
    pub y: i32,
}

impl Point {
    /// Both coordinates lie within `[MIN_COORD, MAX_COORD]`.
    pub open spec fn wf(self) -> bool {
        MIN_COORD <= self.x <= MAX_COORD && MIN_COORD <= self.y <= MAX_COORD
    }

    /// The point shifted by `(dx, dy)`, each coordinate clamped.
    pub open spec fn offset_spec(self, dx: int, dy: int) -> Point {
        Point {
            x: clamp_position(self.x + dx) as i32,
            y: clamp_position(self.y + dy) as i32,
        }
    }

    /// The point `(x, y)` with each coordinate clamped.
    pub fn new(x: i32, y: i32) -> (r: Point)
        ensures
            r.x == clamp_position(x as int),
            r.y == clamp_position(y as int),
            r.wf(),
    {
        Point { x: clamp_coord(x as i64), y: clamp_coord(y as i64) }
    }

    /// The point shifted by `(dx, dy)`; a coordinate that would leave
    /// `[MIN_COORD, MAX_COORD]` stops at the nearer limit.
    pub fn offset(self, dx: i32, dy: i32) -> (r: Point)
        ensures
            r == self.offset_spec(dx as int, dy as int),
            r.wf(),
    {
        Point { x: clamp_coord(self.x as i64 + dx as i64), y: clamp_coord(self.y as i64 + dy as i64) }
    }

    /// The sum of two points, clamped as `offset` clamps.
    pub fn add(self, rhs: Point) -> (r: Point)
        ensures
            r == self.offset_spec(rhs.x as int, rhs.y as int),
    {
        self.offset(rhs.x, rhs.y)
    }

    pub fn x(self) -> (r: i32)
        ensures
            r == self.x,
    {
        self.x
    }

    pub fn y(self) -> (r: i32)
        ensures
            r == self.y,
    {
        self.y
    }
}

/// An axis-aligned rectangle given by its top-left corner and its size.
#[derive(Clone, Copy, Debug, PartialEq, Eq, Structural)]
pub struct Rect {
    pub x: i32,
    pub y: i32,
    pub w: u32,
    pub h: u32,
}

impl Rect {
    /// The corner lies within the coordinate limits and the size within
    /// `[1, MAX_SIZE]`.
    pub open spec fn wf(self) -> bool {
        &&& MIN_COORD <= self.x <= MAX_COORD
        &&& MIN_COORD <= self.y <= MAX_COORD
        &&& 1 <= self.w <= MAX_SIZE
        &&& 1 <= self.h <= MAX_SIZE
    }

    /// The rectangle of (clamped) size `w` by `h` whose centre is `c`.
    pub open spec fn centered_spec(c: Point, w: int, h: int) -> Rect {
        let cw = clamp_size(w);
        let ch = clamp_size(h);
        Rect {
            x: clamp_position(clamp_position(c.x as int) - cw / 2) as i32,
            y: clamp_position(clamp_position(c.y as int) - ch / 2) as i32,
            w: cw as u32,
            h: ch as u32,
        }
    }

    /// The rectangle with corner `(x, y)` and size `width` by `height`, each
    /// value clamped.
    pub fn new(x: i32, y: i32, width: u32, height: u32) -> (r: Rect)
        ensures
            r.x == clamp_position(x as int),
            r.y == clamp_position(y as int),
            r.w == clamp_size(width as int),
            r.h == clamp_size(height as int),
            r.wf(),
    {
        Rect {
            x: clamp_coord(x as i64),
            y: clamp_coord(y as i64),
            w: clamp_extent(width),
            h: clamp_extent(height),
        }
    }

    /// The rectangle of size `width` by `height` centred on `center`; the
    /// size is clamped first, then the corner.
    pub fn from_center(center: Point, width: u32, height: u32) -> (r: Rect)
        ensures
            r == Rect::centered_spec(center, width as int, height as int),
            r.wf(),
    {
        let w = clamp_extent(width);
        let h = clamp_extent(height);
        let cx = clamp_coord(center.x as i64);
        let cy = clamp_coord(center.y as i64);
        Rect {
            x: clamp_coord(cx as i64 - (w / 2) as i64),
            y: clamp_coord(cy as i64 - (h / 2) as i64),
            w,
            h,
        }
    }

    pub fn width(&self) -> (r: u32)
        ensures
            r == self.w,
    {
        self.w
    }

    pub fn height(&self) -> (r: u32)
        ensures
            r == self.h,
    {
        self.h
    }
}

} // verus!
