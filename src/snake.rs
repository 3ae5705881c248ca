//! The snake: its body, head first, and its heading; one transition per tick.
use crate::grid::{opposite_spec, Direction, GridConfig, Position};
use vstd::prelude::*;

verus! {

/// Number of segments a snake starts a game with.
pub const INITIAL_LENGTH: usize = 5;

/// The heading after a tick: a request is taken unless it points straight back.
pub open spec fn resolve_heading(current: Direction, requested: Option<Direction>) -> Direction {
    match requested {
        None => current,
        Some(d) => if d == opposite_spec(current) { current } else { d },
    }
}

/// The body after its head moves to `head`: every segment takes its
/// predecessor's place and the last one is dropped.
pub open spec fn shifted(body: Seq<Position>, head: Position) -> Seq<Position> {
    seq![head] + body.take(body.len() - 1)
}

/// Some segment other than the head sits on the head's cell.
pub open spec fn self_collides(body: Seq<Position>) -> bool {
    exists|i: int| 1 <= i < body.len() && #[trigger] body[i] == body[0]
}

/// The body a game starts with: a vertical line from the grid's centre
/// downwards, head on top.
pub open spec fn start_body(config: GridConfig) -> Seq<Position> {
    Seq::new(
        INITIAL_LENGTH as nat,
        |i: int| Position { x: config.width / 2, y: (config.height / 2 + i) as u16 },
    )
}

/// The snake's state: segments head first (index 0 is the head) and heading.
#[derive(Debug)]
pub struct Snake {
    pub body: Vec<Position>,
    pub direction: Direction,
}

/// What one tick of movement produced.
#[derive(Clone, Copy, Debug, PartialEq, Eq, Structural)]
pub struct AdvanceResult {
    /// The new head; the new body is the snake's own.
    pub head: Position,
    /// The new head sits on another segment.
    pub self_collision: bool,
    /// On a bounded grid, the new head is on or outside the border.
    pub boundary_violation: bool,
}

impl Snake {
    /// The snake has a head.
    pub open spec fn wf(&self) -> bool {
        self.body@.len() >= 1
    }

    /// The snake a game starts with, heading up.
    pub fn start(config: GridConfig) -> (r: Snake)
        ensures
            r.body@ == start_body(config),
            r.direction == Direction::Up,
            r.wf(),
    {
        let x = config.width / 2;
        let y = config.height / 2;
        let mut body: Vec<Position> = Vec::new();
        let mut k: u16 = 0;
        while k < INITIAL_LENGTH as u16
            invariant
                k <= INITIAL_LENGTH,
                x == config.width / 2,
                y == config.height / 2,
                body@ == start_body(config).take(k as int),
            decreases INITIAL_LENGTH - k,
        {
            body.push(Position { x, y: y + k });
            k = k + 1;
            assert(body@ =~= start_body(config).take(k as int));
        }
        assert(body@ =~= start_body(config));
        Snake { body, direction: Direction::Up }
    }

    /// The head's cell.
    pub fn head(&self) -> (r: Position)
        requires
            self.wf(),
        ensures
            r == self.body@[0],
    {
        self.body[0]
    }

    /// Number of segments.
    pub fn len(&self) -> (r: usize)
        ensures
            r == self.body@.len(),
    {
        self.body.len()
    }

    /// Whether some segment sits on `p`.
    pub fn occupies(&self, p: Position) -> (r: bool)
        ensures
            r == self.body@.contains(p),
    {
        let mut i: usize = 0;
        while i < self.body.len()
            invariant
                i <= self.body@.len(),
                forall|j: int| 0 <= j < i ==> self.body@[j] != p,
            decreases self.body@.len() - i,
        {
            if self.body[i] == p {
                return true;
            }
            i = i + 1;
        }
        false
    }

    /// Whether a segment other than the head sits on the head's cell.
    pub fn is_self_collision(&self) -> (r: bool)
        requires
            self.wf(),
        ensures
            r == self_collides(self.body@),
    {
        let head = self.body[0];
        let mut i: usize = 1;
        while i < self.body.len()
            invariant
                1 <= i <= self.body@.len(),
                head == self.body@[0],
                forall|j: int| 1 <= j < i ==> self.body@[j] != head,
            decreases self.body@.len() - i,
        {
            if self.body[i] == head {
                return true;
            }
            i = i + 1;
        }
        false
    }

    /// Moves the snake one cell: settles the heading, steps the head under
    /// the grid's policy, shifts the body behind it, and reports collisions.
    pub fn advance(&mut self, requested: Option<Direction>, config: GridConfig) -> (r: AdvanceResult)
        requires
            old(self).wf(),
            config.valid(),
        ensures
            final(self).direction == resolve_heading(old(self).direction, requested),
            final(self).body@ == shifted(
                old(self).body@,
                config.step_spec(old(self).body@[0], final(self).direction),
            ),
            r.head == final(self).body@[0],
            r.self_collision == self_collides(final(self).body@),
            r.boundary_violation == (!config.wrap && config.on_boundary_spec(r.head)),
            final(self).wf(),
    {
        let heading = match requested {
            None => self.direction,
            Some(d) => if d == self.direction.opposite() { self.direction } else { d },
        };
        self.direction = heading;
        let new_head = config.step(self.body[0], heading);

        let ghost old_body = self.body@;
        let len = self.body.len();
        let mut i: usize = len - 1;
        while i > 0
            invariant
                i < len,
                len == old_body.len(),
                self.body@.len() == len,
                self.direction == heading,
                forall|j: int| 0 <= j <= i ==> self.body@[j] == old_body[j],
                forall|j: int| i < j < len ==> self.body@[j] == old_body[j - 1],
            decreases i,
        {
            let prev = self.body[i - 1];
            self.body.set(i, prev);
            i = i - 1;
        }
        self.body.set(0, new_head);
        assert(self.body@ =~= shifted(old_body, new_head));

        let self_collision = self.is_self_collision();
        let boundary_violation = !config.wrap && config.on_boundary(new_head);
        AdvanceResult { head: new_head, self_collision, boundary_violation }
    }

    /// Lengthens the snake by one: its last segment is doubled, so the body
    /// grows on the next shift.
    pub fn grow(&mut self)
        requires
            old(self).wf(),
        ensures
            final(self).body@ == old(self).body@.push(old(self).body@.last()),
            final(self).direction == old(self).direction,
            final(self).wf(),
    {
        let last = self.body[self.body.len() - 1];
        self.body.push(last);
    }
}

} // verus!
