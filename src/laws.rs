//! Properties of the game's rules, stated over the spec functions that the
//! operations' contracts use, and proved.
use crate::game::{grown, lost};
use crate::grid::{opposite_spec, unit_step, Direction, GridConfig, Position};
use crate::snake::{resolve_heading, self_collides, shifted};
use vstd::arithmetic::div_mod::lemma_mod_add_multiples_vanish;
use vstd::prelude::*;

verus! {

/// A requested heading is taken unless it is the exact opposite of the
/// current one, in which case the current heading stays.
pub proof fn lemma_heading_follows_request(current: Direction, requested: Direction)
    ensures
        requested != opposite_spec(current) ==> resolve_heading(current, Some(requested)) == requested,
        requested == opposite_spec(current) ==> resolve_heading(current, Some(requested)) == current,
        resolve_heading(current, None) == current,
{
}

/// A tick lengthens the body by exactly one when the food is eaten and
/// leaves its length unchanged otherwise.
pub proof fn lemma_tick_length(body: Seq<Position>, head: Position, ate: bool)
    requires
        body.len() >= 1,
    ensures
        (if ate { grown(shifted(body, head)) } else { shifted(body, head) }).len()
            == body.len() + if ate { 1int } else { 0int },
{
}

/// In wrap mode each coordinate of the new head is the unit step's coordinate
/// modulo the grid's dimension, so the head always stays on the grid, and no
/// boundary violation is raised.
pub proof fn lemma_wrap_stays_on_grid(config: GridConfig, p: Position, d: Direction)
    requires
        config.valid(),
        config.wrap,
    ensures
        config.step_spec(p, d).x as int == unit_step(p, d).0 % (config.width as int),
        config.step_spec(p, d).y as int == unit_step(p, d).1 % (config.height as int),
        config.contains_spec(config.step_spec(p, d)),
        !(!config.wrap && config.on_boundary_spec(config.step_spec(p, d))),
{
    let c = unit_step(p, d);
    lemma_mod_add_multiples_vanish(c.0, config.width as int);
    lemma_mod_add_multiples_vanish(c.1, config.height as int);
}

/// On a bounded grid a head in row or column zero, or in the last row or
/// column, is a boundary violation and ends the game.
pub proof fn lemma_bounded_edge_loses(config: GridConfig, body: Seq<Position>, head: Position)
    requires
        config.valid(),
        !config.wrap,
        head.x == 0 || head.x == config.width - 1 || head.y == 0 || head.y == config.height - 1,
    ensures
        config.on_boundary_spec(head),
        lost(config, body, head),
{
}

/// After a move, the snake collides with itself exactly when the new head
/// lands on one of the segments that the shift keeps behind it, that is on
/// any old segment but the old tail.
pub proof fn lemma_self_collision_iff(body: Seq<Position>, head: Position)
    requires
        body.len() >= 1,
    ensures
        self_collides(shifted(body, head)) <==> exists|i: int| 0 <= i < body.len() - 1 && #[trigger] body[i] == head,
{
    let s = shifted(body, head);
    if self_collides(s) {
        let i = choose|i: int| 1 <= i < s.len() && #[trigger] s[i] == s[0];
        assert(body[i - 1] == head);
    }
    if exists|i: int| 0 <= i < body.len() - 1 && #[trigger] body[i] == head {
        let i = choose|i: int| 0 <= i < body.len() - 1 && #[trigger] body[i] == head;
        assert(s[i + 1] == s[0]);
    }
}

/// A snake of one segment can never collide with itself.
pub proof fn lemma_single_segment_never_collides(body: Seq<Position>, head: Position)
    requires
        body.len() == 1,
    ensures
        !self_collides(shifted(body, head)),
{
}

} // verus!
