//! Placing food on a free cell of the grid.
use crate::grid::{GridConfig, Position};
use crate::snake::Snake;
use rand::rngs::ThreadRng;
use rand::Rng;
use vstd::prelude::*;

verus! {

/// Random draws tried before the free cells are searched in order.
pub const MAX_DRAWS: u32 = 64;

/// rand's thread-local generator, opaque here: it is only handed on to `draw`.
#[verifier::external_type_specification]
#[verifier::external_body]
pub struct ExThreadRng(ThreadRng);

/// Relies on rand::Rng::gen_range: a value drawn from `lo..hi` (it panics on
/// an empty range).
#[verifier::external_body]
fn draw(rng: &mut ThreadRng, lo: u16, hi: u16) -> (r: u16)
    requires
        lo < hi,
    ensures
        lo <= r < hi,
{
    rng.gen_range(lo..hi)
}

/// Some interior cell of the grid is not covered by `body`.
pub open spec fn has_free_cell(config: GridConfig, body: Seq<Position>) -> bool {
    exists|p: Position| config.interior_spec(p) && !body.contains(p)
}

/// Picks a cell for the next food: an interior cell that no segment covers.
/// A few cells are drawn at random; if all are taken, the interior is searched
/// in order. `None` comes back exactly when no such cell exists.
pub fn place_food(snake: &Snake, config: GridConfig, rng: &mut ThreadRng) -> (r: Option<Position>)
    ensures
        r is Some <==> has_free_cell(config, snake.body@),
        r matches Some(p) ==> config.interior_spec(p) && !snake.body@.contains(p),
{
    if config.width < 3 || config.height < 3 {
        assert forall|p: Position| !config.interior_spec(p) by {}
        return None;
    }
    let mut tries: u32 = 0;
    while tries < MAX_DRAWS
        invariant
            tries <= MAX_DRAWS,
            config.width >= 3 && config.height >= 3,
        decreases MAX_DRAWS - tries,
    {
        let p = Position { x: draw(rng, 1, config.width - 1), y: draw(rng, 1, config.height - 1) };
        if !snake.occupies(p) {
            return Some(p);
        }
        tries = tries + 1;
    }
    let mut x: u16 = 1;
    while x < config.width - 1
        invariant
            1 <= x <= config.width - 1,
            config.width >= 3 && config.height >= 3,
            forall|q: Position| config.interior_spec(q) && q.x < x ==> #[trigger] snake.body@.contains(q),
        decreases config.width - 1 - x,
    {
        let mut y: u16 = 1;
        while y < config.height - 1
            invariant
                1 <= x < config.width - 1,
                1 <= y <= config.height - 1,
                config.width >= 3 && config.height >= 3,
                forall|q: Position| config.interior_spec(q) && q.x < x ==> #[trigger] snake.body@.contains(q),
                forall|q: Position|
                    config.interior_spec(q) && q.x == x && q.y < y ==> #[trigger] snake.body@.contains(q),
            decreases config.height - 1 - y,
        {
            let p = Position { x, y };
            if !snake.occupies(p) {
                return Some(p);
            }
            y = y + 1;
        }
        x = x + 1;
    }
    None
}

} // verus!
