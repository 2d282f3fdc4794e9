//! Grid coordinates and headings.
use vstd::prelude::*;

verus! {

/// Number of columns of the playing field.
pub const GRID_WIDTH: i32 = 20;

/// Number of rows of the playing field.
pub const GRID_HEIGHT: i32 = 20;

/// Number of cells of the playing field.
pub const GRID_CELLS: usize = 400;

/// One grid cell; `y` grows downwards.
#[derive(Clone, Copy, Debug, PartialEq, Eq, Structural)]
pub struct Position {
    pub x: i32,
    pub y: i32,
}

/// A heading of the snake.
#[derive(Clone, Copy, Debug, PartialEq, Eq, Structural)]
pub enum Direction {
    Up,
    Left,
    Down,
    Right,
}

/// The heading that points the other way.
pub open spec fn opposite(d: Direction) -> Direction {
    match d {
        Direction::Up => Direction::Down,
        Direction::Left => Direction::Right,
        Direction::Down => Direction::Up,
        Direction::Right => Direction::Left,
    }
}

/// Horizontal component of the unit vector of a heading.
pub open spec fn dx(d: Direction) -> int {
    match d {
        Direction::Left => -1,
        Direction::Right => 1,
        _ => 0,
    }
}

/// Vertical component of the unit vector of a heading.
pub open spec fn dy(d: Direction) -> int {
    match d {
        Direction::Up => -1,
        Direction::Down => 1,
        _ => 0,
    }
}

/// Whether a cell lies on the playing field.
pub open spec fn in_grid(p: Position) -> bool {
    0 <= p.x < GRID_WIDTH && 0 <= p.y < GRID_HEIGHT
}

/// The cell `n` unit steps away from `p` along `d`.
pub open spec fn shifted(p: Position, d: Direction, n: int) -> Position {
    Position { x: (p.x + n * dx(d)) as i32, y: (p.y + n * dy(d)) as i32 }
}

/// The cell with row-major index `i` on the playing field.
pub open spec fn cell_at(i: int) -> Position {
    Position { x: (i % GRID_WIDTH as int) as i32, y: (i / GRID_WIDTH as int) as i32 }
}

impl Position {
    /// Whether this cell lies on the playing field.
    pub fn in_grid(&self) -> (r: bool)
        ensures
            r == in_grid(*self),
    {
        0 <= self.x && self.x < GRID_WIDTH && 0 <= self.y && self.y < GRID_HEIGHT
    }

    /// The neighbouring cell one step along `d`.
    pub fn step(&self, d: Direction) -> (r: Position)
        requires
            in_grid(*self),
        ensures
            r == shifted(*self, d, 1),
    {
        match d {
            Direction::Up => Position { x: self.x, y: self.y - 1 },
            Direction::Left => Position { x: self.x - 1, y: self.y },
            Direction::Down => Position { x: self.x, y: self.y + 1 },
            Direction::Right => Position { x: self.x + 1, y: self.y },
        }
    }
}

impl Direction {
    /// The heading that points the other way.
    pub fn opposite(&self) -> (r: Direction)
        ensures
            r == opposite(*self),
    {
        match self {
            Direction::Up => Direction::Down,
            Direction::Left => Direction::Right,
            Direction::Down => Direction::Up,
            Direction::Right => Direction::Left,
        }
    }
}

} // verus!
