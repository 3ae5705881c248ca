//! The playfield: cells, headings, and the boundary policy.
use vstd::arithmetic::div_mod::lemma_mod_add_multiples_vanish;
use vstd::prelude::*;

verus! {

/// A heading of the snake.
#[derive(Clone, Copy, Debug, PartialEq, Eq, Structural)]
pub enum Direction {
    Up,
    Down,
    Left,
    Right,
}

/// A cell of the grid: `x` is the column, `y` the row.
#[derive(Clone, Copy, Debug, PartialEq, Eq, Structural)]
pub struct Position {
    pub x: u16,
    pub y: u16,
}

/// Size of the playfield and what happens at its edges.
#[derive(Clone, Copy, Debug, PartialEq, Eq, Structural)]
pub struct GridConfig {
    pub width: u16,
    pub height: u16,
    /// When set, the edges are toroidal; otherwise touching one ends the game.
    pub wrap: bool,
}

pub open spec fn opposite_spec(d: Direction) -> Direction {
    match d {
        Direction::Up => Direction::Down,
        Direction::Down => Direction::Up,
        Direction::Left => Direction::Right,
        Direction::Right => Direction::Left,
    }
}

impl Direction {
    /// The heading pointing the other way.
    pub fn opposite(self) -> (r: Direction)
        ensures
            r == opposite_spec(self),
    {
        match self {
            Direction::Up => Direction::Down,
            Direction::Down => Direction::Up,
            Direction::Left => Direction::Right,
            Direction::Right => Direction::Left,
        }
    }
}

/// A coordinate folded back into `[0, dim)`.
pub open spec fn wrap_coord(c: int, dim: int) -> int {
    (c + dim) % dim
}

pub open spec fn sat_dec(c: u16) -> u16 {
    if c == 0 { 0 } else { (c - 1) as u16 }
}

pub open spec fn sat_inc(c: u16) -> u16 {
    if c == u16::MAX { u16::MAX } else { (c + 1) as u16 }
}

/// The cell one unit from `p` along `d`, before any boundary policy.
pub open spec fn unit_step(p: Position, d: Direction) -> (int, int) {
    match d {
        Direction::Up => (p.x as int, p.y - 1),
        Direction::Down => (p.x as int, p.y + 1),
        Direction::Left => (p.x - 1, p.y as int),
        Direction::Right => (p.x + 1, p.y as int),
    }
}

/// The cell one unit from `p` along `d`, with coordinates saturated at the
/// limits of `u16`.
pub open spec fn saturating_step(p: Position, d: Direction) -> Position {
    match d {
        Direction::Up => Position { x: p.x, y: sat_dec(p.y) },
        Direction::Down => Position { x: p.x, y: sat_inc(p.y) },
        Direction::Left => Position { x: sat_dec(p.x), y: p.y },
        Direction::Right => Position { x: sat_inc(p.x), y: p.y },
    }
}

impl GridConfig {
    /// Both dimensions are at least one cell.
    pub open spec fn valid(self) -> bool {
        self.width >= 1 && self.height >= 1
    }

    /// `p` lies in `[0, width) x [0, height)`.
    pub open spec fn contains_spec(self, p: Position) -> bool {
        p.x < self.width && p.y < self.height
    }

    /// `p` lies strictly inside the border row and column on each side.
    pub open spec fn interior_spec(self, p: Position) -> bool {
        1 <= p.x && p.x + 1 < self.width && 1 <= p.y && p.y + 1 < self.height
    }

    /// `p` lies on or outside the border of a bounded grid.
    pub open spec fn on_boundary_spec(self, p: Position) -> bool {
        p.x == 0 || p.x + 1 >= self.width || p.y == 0 || p.y + 1 >= self.height
    }

    /// The toroidal equivalent of a cell given by possibly out-of-range
    /// coordinates, each axis folded on its own.
    pub open spec fn wrap_spec(self, c: (int, int)) -> Position {
        Position {
            x: wrap_coord(c.0, self.width as int) as u16,
            y: wrap_coord(c.1, self.height as int) as u16,
        }
    }

    /// Where a head at `p` moving along `d` lands under this grid's policy.
    pub open spec fn step_spec(self, p: Position, d: Direction) -> Position {
        if self.wrap {
            self.wrap_spec(unit_step(p, d))
        } else {
            saturating_step(p, d)
        }
    }

    /// Whether `p` lies in `[0, width) x [0, height)`.
    pub fn contains(&self, p: Position) -> (r: bool)
        ensures
            r == self.contains_spec(p),
    {
        p.x < self.width && p.y < self.height
    }

    /// Whether `p` lies on or outside the border of a bounded grid.
    pub fn on_boundary(&self, p: Position) -> (r: bool)
        requires
            self.valid(),
        ensures
            r == self.on_boundary_spec(p),
    {
        p.x == 0 || p.x >= self.width - 1 || p.y == 0 || p.y >= self.height - 1
    }

    /// Folds one unit step from `p` along `d` back into the grid.
    pub fn wrap(&self, p: Position, d: Direction) -> (r: Position)
        requires
            self.valid(),
        ensures
            r == self.wrap_spec(unit_step(p, d)),
            self.contains_spec(r),
    {
        let w = self.width as u32;
        let h = self.height as u32;
        let x = p.x as u32;
        let y = p.y as u32;
        let (nx, ny): (u32, u32) = match d {
            Direction::Up => (x % w, (y + h - 1) % h),
            Direction::Down => (x % w, (y + 1) % h),
            Direction::Left => ((x + w - 1) % w, y % h),
            Direction::Right => ((x + 1) % w, y % h),
        };
        proof {
            lemma_mod_add_multiples_vanish(x as int, w as int);
            lemma_mod_add_multiples_vanish(y as int, h as int);
            lemma_mod_add_multiples_vanish(x + 1, w as int);
            lemma_mod_add_multiples_vanish(y + 1, h as int);
        }
        Position { x: nx as u16, y: ny as u16 }
    }

    /// The cell one unit from `p` along `d` under this grid's policy: folded
    /// back in wrap mode, saturated at zero (and at the type's limit) otherwise.
    pub fn step(&self, p: Position, d: Direction) -> (r: Position)
        requires
            self.valid(),
        ensures
            r == self.step_spec(p, d),
    {
        if self.wrap {
            self.wrap(p, d)
        } else {
            match d {
                Direction::Up => Position { x: p.x, y: p.y.saturating_sub(1) },
                Direction::Down => Position { x: p.x, y: p.y.saturating_add(1) },
                Direction::Left => Position { x: p.x.saturating_sub(1), y: p.y },
                Direction::Right => Position { x: p.x.saturating_add(1), y: p.y },
            }
        }
    }
}

} // verus!
