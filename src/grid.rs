//! Cells of the toroidal grid and the four directions of movement.
use vstd::prelude::*;

use oorandom::Rand32;

verus! {

/// Number of columns of the grid.
pub const GRID_WIDTH: i8 = 32;

/// Number of rows of the grid.
pub const GRID_HEIGHT: i8 = 32;

/// Side of one cell on screen, in pixels.
pub const CELL_SIZE: i32 = 16;

/// One of the four directions of movement.
#[derive(Clone, Copy, Debug, PartialEq, Eq, Structural)]
pub enum Direction {
    Up,
    Down,
    Left,
    Right,
}

/// The direction that points the opposite way.
pub open spec fn opposite(d: Direction) -> Direction {
    match d {
        Direction::Up => Direction::Down,
        Direction::Down => Direction::Up,
        Direction::Left => Direction::Right,
        Direction::Right => Direction::Left,
    }
}

impl Direction {
    pub fn inverse(&self) -> (r: Direction)
        ensures
            r == opposite(*self),
    {
        match *self {
            Direction::Up => Direction::Down,
            Direction::Down => Direction::Up,
            Direction::Left => Direction::Right,
            Direction::Right => Direction::Left,
        }
    }
}

/// A cell of the grid, by column `x` and row `y`.
#[derive(Clone, Copy, Debug, PartialEq, Eq, Structural)]
pub struct Position {
    pub x: i8,
    pub y: i8,
}

impl Position {
    /// The cell lies on the grid.
    pub open spec fn wf(self) -> bool {
        0 <= self.x < GRID_WIDTH && 0 <= self.y < GRID_HEIGHT
    }

    pub fn new(x: i8, y: i8) -> (r: Position)
        ensures
            r.x == x,
            r.y == y,
    {
        Position { x, y }
    }

    /// A cell drawn from `rng`, with `0 <= x < max_x` and `0 <= y < max_y`.
    pub fn random(rng: &mut Rand32, max_x: i8, max_y: i8) -> (r: Position)
        requires
            0 < max_x,
            0 < max_y,
        ensures
            0 <= r.x < max_x,
            0 <= r.y < max_y,
    {
        let x = rng.rand_range(core::ops::Range { start: 0, end: max_x as u32 });
        let y = rng.rand_range(core::ops::Range { start: 0, end: max_y as u32 });
        Position::new(x as i8, y as i8)
    }

    /// The cell's square on screen: left, top, width and height in pixels.
    pub fn cell_rect(self) -> (r: (i32, i32, i32, i32))
        requires
            self.wf(),
        ensures
            r.0 == self.x * CELL_SIZE,
            r.1 == self.y * CELL_SIZE,
            r.2 == CELL_SIZE,
            r.3 == CELL_SIZE,
    {
        (self.x as i32 * CELL_SIZE, self.y as i32 * CELL_SIZE, CELL_SIZE, CELL_SIZE)
    }

    /// The neighbouring cell in direction `dir`, wrapping around the edges.
    pub fn next(pos: Position, dir: Direction) -> (r: Position)
        requires
            pos.wf(),
        ensures
            r == step(pos, dir),
            r.wf(),
    {
        match dir {
            Direction::Up => {
                let y = if pos.y == 0 { GRID_HEIGHT - 1 } else { pos.y - 1 };
                Position::new(pos.x, y)
            },
            Direction::Down => {
                let y = if pos.y == GRID_HEIGHT - 1 { 0 } else { pos.y + 1 };
                Position::new(pos.x, y)
            },
            Direction::Left => {
                let x = if pos.x == 0 { GRID_WIDTH - 1 } else { pos.x - 1 };
                Position::new(x, pos.y)
            },
            Direction::Right => {
                let x = if pos.x == GRID_WIDTH - 1 { 0 } else { pos.x + 1 };
                Position::new(x, pos.y)
            },
        }
    }
}

impl From<(i8, i8)> for Position {
    fn from(pos: (i8, i8)) -> (r: Position) {
        Position { x: pos.0, y: pos.1 }
    }
}

impl vstd::std_specs::convert::FromSpecImpl<(i8, i8)> for Position {
    open spec fn obeys_from_spec() -> bool {
        true
    }

    open spec fn from_spec(pos: (i8, i8)) -> Position {
        Position { x: pos.0, y: pos.1 }
    }
}

/// The cell one step from `p` in direction `d`, each coordinate taken modulo
/// the grid's size (the Euclidean remainder, never negative).
pub open spec fn step(p: Position, d: Direction) -> Position {
    match d {
        Direction::Up => Position { x: p.x, y: ((p.y - 1) % (GRID_HEIGHT as int)) as i8 },
        Direction::Down => Position { x: p.x, y: ((p.y + 1) % (GRID_HEIGHT as int)) as i8 },
        Direction::Left => Position { x: ((p.x - 1) % (GRID_WIDTH as int)) as i8, y: p.y },
        Direction::Right => Position { x: ((p.x + 1) % (GRID_WIDTH as int)) as i8, y: p.y },
    }
}

/// Turning around twice faces the way one started.
pub proof fn lemma_inverse_involutive(d: Direction)
    ensures
        opposite(opposite(d)) == d,
{
}

/// A step followed by a step the opposite way comes back to the start cell,
/// also across an edge.
pub proof fn lemma_step_back(p: Position, d: Direction)
    requires
        p.wf(),
    ensures
        step(step(p, d), opposite(d)) == p,
{
}

} // verus!
