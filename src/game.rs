//! One game session: the snake, the food, the grid and whether play goes on.
use crate::food::{has_free_cell, place_food};
use crate::grid::{Direction, GridConfig, Position};
use crate::snake::{
    resolve_heading, self_collides, shifted, start_body, AdvanceResult, Snake, INITIAL_LENGTH,
};
use rand::rngs::ThreadRng;
use vstd::prelude::*;

verus! {

/// Whether a session still takes ticks.
#[derive(Clone, Copy, Debug, PartialEq, Eq, Structural)]
pub enum GameStatus {
    Playing,
    Over,
}

/// What a tick did.
#[derive(Clone, Copy, Debug, PartialEq, Eq, Structural)]
pub struct TickReport {
    /// The snake's move.
    pub moved: AdvanceResult,
    /// The head landed on the food, which was eaten.
    pub ate: bool,
    /// A loss condition holds: the session is over.
    pub over: bool,
}

/// The body after it has grown by one: its last segment doubled.
pub open spec fn grown(body: Seq<Position>) -> Seq<Position> {
    body.push(body.last())
}

/// The loss condition after a move to `head` that left the body `body`.
pub open spec fn lost(config: GridConfig, body: Seq<Position>, head: Position) -> bool {
    self_collides(body) || (!config.wrap && config.on_boundary_spec(head))
}

/// A game session.
#[derive(Debug)]
pub struct Game {
    pub snake: Snake,
    /// Where the food lies; `None` once no free cell is left for it.
    pub food: Option<Position>,
    pub config: GridConfig,
    pub status: GameStatus,
}

impl Game {
    /// The snake has at least its starting length, the grid is valid, and the
    /// food lies on a free interior cell.
    pub open spec fn wf(&self) -> bool {
        &&& self.snake.body@.len() >= INITIAL_LENGTH
        &&& self.config.valid()
        &&& self.food matches Some(f) ==> self.config.interior_spec(f) && !self.snake.body@.contains(f)
    }

    /// A fresh session on `config`: the starting snake heading up, and food
    /// on a free cell if there is one.
    pub fn new(config: GridConfig, rng: &mut ThreadRng) -> (r: Game)
        requires
            config.valid(),
        ensures
            r.wf(),
            r.snake.body@ == start_body(config),
            r.snake.direction == Direction::Up,
            r.config == config,
            r.status == GameStatus::Playing,
            r.food is Some <==> has_free_cell(config, start_body(config)),
    {
        let snake = Snake::start(config);
        let food = place_food(&snake, config, rng);
        Game { snake, food, config, status: GameStatus::Playing }
    }

    /// Points scored: segments gained since the start.
    pub fn score(&self) -> (r: usize)
        requires
            self.wf(),
        ensures
            r == self.snake.body@.len() - INITIAL_LENGTH,
    {
        self.snake.len() - INITIAL_LENGTH
    }

    /// One simulation step. The snake moves, taking `requested` as its new
    /// heading unless it points straight back. If the head lands on the
    /// food, new food is placed on a free cell and the snake grows by one.
    /// Then a self-collision, or on a bounded grid a head on the border,
    /// ends the session. A session that is over takes no more steps.
    pub fn tick(&mut self, requested: Option<Direction>, rng: &mut ThreadRng) -> (r: Option<TickReport>)
        requires
            old(self).wf(),
        ensures
            final(self).wf(),
            final(self).config == old(self).config,
            old(self).status == GameStatus::Over ==> r is None && *final(self) == *old(self),
            old(self).status == GameStatus::Playing ==> {
                let heading = resolve_heading(old(self).snake.direction, requested);
                let head = old(self).config.step_spec(old(self).snake.body@[0], heading);
                let moved = shifted(old(self).snake.body@, head);
                let ate = old(self).food == Some(head);
                let over = lost(old(self).config, moved, head);
                &&& r matches Some(t) && t.ate == ate && t.over == over && t.moved.head == head
                    && t.moved.self_collision == self_collides(moved)
                    && t.moved.boundary_violation == (!old(self).config.wrap
                        && old(self).config.on_boundary_spec(head))
                &&& final(self).snake.direction == heading
                &&& final(self).snake.body@ == if ate { grown(moved) } else { moved }
                &&& !ate ==> final(self).food == old(self).food
                &&& ate ==> (final(self).food is Some <==> has_free_cell(old(self).config, moved))
                &&& final(self).status == if over { GameStatus::Over } else { GameStatus::Playing }
            },
    {
        if self.status == GameStatus::Over {
            return None;
        }
        let ghost old_body = self.snake.body@;
        let ghost old_food = self.food;
        let moved = self.snake.advance(requested, self.config);
        let ate = match self.food {
            Some(f) => f == moved.head,
            None => false,
        };
        if ate {
            self.food = place_food(&self.snake, self.config, rng);
            let ghost before = self.snake.body@;
            self.snake.grow();
            proof {
                if let Some(f) = self.food {
                    assert(!before.contains(f));
                    assert forall|i: int| 0 <= i < self.snake.body@.len() implies self.snake.body@[i] != f by {
                        if i < before.len() {
                            assert(self.snake.body@[i] == before[i]);
                        } else {
                            assert(self.snake.body@[i] == before[before.len() - 1]);
                        }
                    }
                }
            }
        } else {
            proof {
                if let Some(f) = old_food {
                    assert(f != moved.head);
                    assert(!old_body.contains(f));
                    assert forall|i: int| 0 <= i < self.snake.body@.len() implies self.snake.body@[i] != f by {
                        if i > 0 {
                            assert(self.snake.body@[i] == old_body[i - 1]);
                        }
                    }
                }
            }
        }
        let over = moved.self_collision || moved.boundary_violation;
        if over {
            self.status = GameStatus::Over;
        }
        Some(TickReport { moved, ate, over })
    }
}

} // verus!
