//! The snake simulation: one move per tick while the game runs, apple
//! eating with growth and speed-up, and crash detection.

use crate::cube::{get_next_cube_position_and_direction, next_position_spec};
use crate::models::{
    get_opposite_direction, opposite_direction_spec, pos_in_bounds, state_wf, Cube, CubePosition,
    CubeSideType, Direction, GameState, GameStatus,
};
use vstd::prelude::*;
use vstd::seq_lib::*;

verus! {

/// The move period is multiplied by 95/100 for each eaten apple, truncated
/// to whole milliseconds: 5 percent faster per apple, never negative.
pub const MOVE_PERIOD_SHRINK_NUMERATOR: u64 = 95;

pub const MOVE_PERIOD_SHRINK_DENOMINATOR: u64 = 100;

/// The move period after one apple: 95 percent, truncated.
pub open spec fn shrunk_period_spec(period: u64) -> int {
    period * (MOVE_PERIOD_SHRINK_NUMERATOR as int) / (MOVE_PERIOD_SHRINK_DENOMINATOR as int)
}

/// The cell in front of the snake's head, across cube edges.
pub open spec fn new_head_spec(st: GameState) -> CubePosition {
    let t = next_position_spec(st.snake.parts@[0], st.snake.direction, st.cube.grid);
    CubePosition { side: t.0, row: t.1 as i32, col: t.2 as i32 }
}

/// The direction the snake heads in after the move (edge crossings can
/// remap it).
pub open spec fn new_direction_spec(st: GameState) -> Direction {
    next_position_spec(st.snake.parts@[0], st.snake.direction, st.cube.grid).3
}

/// Whether the move lands the head on an apple.
pub open spec fn snake_ate_spec(st: GameState) -> bool {
    st.apples@.contains(new_head_spec(st))
}

/// The apples with the first occurrence of `eaten` removed (the only
/// occurrence, whenever the apples were planted distinct).
pub open spec fn apples_after_eating(apples: Seq<CubePosition>, eaten: CubePosition) -> Seq<
    CubePosition,
> {
    match apples.index_of_first(eaten) {
        Some(i) => apples.remove(i),
        None => apples,
    }
}

/// How one snake move transforms the game state; `last_move_time` is not
/// constrained (the tick gate owns it).
///
/// The tail cell is popped and the new head cell is pushed in front, so the
/// body follows the head by one cell; both cells' faces are flagged for
/// redraw.  Landing on an apple removes that apple, re-appends the popped
/// tail (the snake grows by one) and shrinks the move period by 5 percent.
/// The snake counts as crashed afterwards if it already was, if the new
/// head sits on a stone, or if the new head coincides with a body cell at
/// index 3 or beyond.
pub open spec fn move_snake_rel(pre: GameState, post: GameState) -> bool {
    let n = pre.snake.parts@.len() as int;
    let popped_tail = pre.snake.parts@[n - 1];
    let nh = new_head_spec(pre);
    let ate = snake_ate_spec(pre);
    let body = seq![nh] + pre.snake.parts@.take(n - 1);
    &&& post.snake.parts@ == (if ate {
        body.push(popped_tail)
    } else {
        body
    })
    &&& post.snake.direction == new_direction_spec(pre)
    &&& post.snake.move_period == (if ate {
        shrunk_period_spec(pre.snake.move_period)
    } else {
        pre.snake.move_period as int
    })
    &&& post.snake.is_crashed == (pre.snake.is_crashed || pre.stones@.contains(nh) || exists|i: int|
        3 <= i < post.snake.parts@.len() && post.snake.parts@[i] == nh)
    &&& post.apples@ == (if ate {
        apples_after_eating(pre.apples@, nh)
    } else {
        pre.apples@
    })
    &&& post.stones@ == pre.stones@
    &&& post.status == pre.status
    &&& forall|s: CubeSideType| post.cube.sides.flag(s) == (pre.cube.sides.flag(s) || s
        == popped_tail.side || s == nh.side)
    &&& post.cube == (Cube { sides: post.cube.sides, ..pre.cube })
}

/// True when the given timestamp makes a move due: the game is running and
/// either the snake has not moved yet or a full move period has elapsed.
pub open spec fn move_due_spec(st: GameState, now: u64) -> bool {
    &&& st.status == GameStatus::InGame
    &&& match st.snake.last_move_time {
        None => true,
        Some(t) => t <= now && now - t >= st.snake.move_period,
    }
}

/// Whether `v` holds `p`.
pub(crate) fn contains_position(v: &Vec<CubePosition>, p: CubePosition) -> (r: bool)
    ensures
        r == v@.contains(p),
{
    let mut i: usize = 0;
    while i < v.len()
        invariant
            0 <= i <= v@.len(),
            forall|j: int| 0 <= j < i ==> v@[j] != p,
        decreases v@.len() - i,
    {
        if v[i] == p {
            return true;
        }
        i = i + 1;
    }
    false
}

/// The first index of `p` in `v`, if any.
fn find_position(v: &Vec<CubePosition>, p: CubePosition) -> (r: Option<usize>)
    ensures
        r matches Some(i) ==> v@.index_of_first(p) == Some(i as int),
        r is None ==> !v@.contains(p) && v@.index_of_first(p) is None,
{
    proof {
        v@.index_of_first_ensures(p);
    }
    let mut i: usize = 0;
    while i < v.len()
        invariant
            0 <= i <= v@.len(),
            forall|j: int| 0 <= j < i ==> v@[j] != p,
        decreases v@.len() - i,
    {
        if v[i] == p {
            proof {
                v@.index_of_first_ensures(p);
                assert(v@.contains(p));
                let k = v@.index_of_first(p)->0;
                if k < i {
                    assert(v@[k] != p);
                }
                assert(k == i);
                assert(v@.index_of_first(p) == Some(i as int));
            }
            return Some(i);
        }
        i = i + 1;
    }
    proof {
        if v@.contains(p) {
            let w = choose|j: int| 0 <= j < v@.len() && v@[j] == p;
            assert(v@[w] != p);
        }
    }
    None
}

/// Eats the apple under the snake's head, if there is one: removes it,
/// re-appends the popped tail so the snake grows by one cell, and shrinks
/// the move period by 5 percent (truncated to whole milliseconds).
fn check_for_apples(state: &mut GameState, popped_tail: CubePosition)
    requires
        state_wf(*old(state)),
        pos_in_bounds(popped_tail, old(state).cube.grid),
    ensures
        state_wf(*final(state)),
        ({
            let head = old(state).snake.parts@[0];
            let ate = old(state).apples@.contains(head);
            &&& final(state).apples@ == (if ate {
                apples_after_eating(old(state).apples@, head)
            } else {
                old(state).apples@
            })
            &&& final(state).snake.parts@ == (if ate {
                old(state).snake.parts@.push(popped_tail)
            } else {
                old(state).snake.parts@
            })
            &&& final(state).snake.move_period == (if ate {
                shrunk_period_spec(old(state).snake.move_period)
            } else {
                old(state).snake.move_period as int
            })
        }),
        final(state).snake.direction == old(state).snake.direction,
        final(state).snake.last_move_time == old(state).snake.last_move_time,
        final(state).snake.is_crashed == old(state).snake.is_crashed,
        final(state).cube == old(state).cube,
        final(state).stones == old(state).stones,
        final(state).status == old(state).status,
{
    let head = state.snake.parts[0];
    proof {
        state.apples@.index_of_first_ensures(head);
    }
    if let Some(i) = find_position(&state.apples, head) {
        proof {
            assert(old(state).apples@.index_of_first(head) == Some(i as int));
            assert(apples_after_eating(old(state).apples@, head) == old(state).apples@.remove(
                i as int,
            ));
            let p = old(state).snake.move_period as int;
            vstd::arithmetic::div_mod::lemma_div_is_ordered(p * 95, p * 100, 100);
            vstd::arithmetic::div_mod::lemma_div_multiples_vanish(p, 100);
            assert(p * 95 <= p * 100) by (nonlinear_arith)
                requires
                    p >= 0,
            ;
        }
        state.apples.remove(i);
        state.snake.parts.push_back(popped_tail);
        let shrunk = ((state.snake.move_period as u128 * MOVE_PERIOD_SHRINK_NUMERATOR as u128)
            / MOVE_PERIOD_SHRINK_DENOMINATOR as u128) as u64;
        state.snake.move_period = shrunk;
    }
}

/// Marks the snake as crashed when its head sits on a stone or on a body
/// cell at index 3 or beyond (the three cells behind the head cannot be
/// reached by a legal turn).
fn check_crash(state: &mut GameState)
    requires
        state_wf(*old(state)),
    ensures
        state_wf(*final(state)),
        ({
            let head = old(state).snake.parts@[0];
            final(state).snake.is_crashed == (old(state).snake.is_crashed
                || old(state).stones@.contains(head) || exists|i: int|
                3 <= i < old(state).snake.parts@.len() && old(state).snake.parts@[i] == head)
        }),
        final(state).snake.parts == old(state).snake.parts,
        final(state).snake.direction == old(state).snake.direction,
        final(state).snake.last_move_time == old(state).snake.last_move_time,
        final(state).snake.move_period == old(state).snake.move_period,
        final(state).cube == old(state).cube,
        final(state).apples == old(state).apples,
        final(state).stones == old(state).stones,
        final(state).status == old(state).status,
{
    let head = state.snake.parts[0];

    // crash on stone
    if contains_position(&state.stones, head) {
        state.snake.is_crashed = true;
    }

    // crash on tail
    let mut i: usize = 3;
    let len = state.snake.parts.len();
    if i < len {
        while i < len
            invariant
                3 <= i <= len,
                len == state.snake.parts@.len(),
                *state == (GameState {
                    snake: (*state).snake,
                    ..*old(state)
                }),
                (*state).snake == (crate::models::Snake {
                    is_crashed: (*state).snake.is_crashed,
                    ..old(state).snake
                }),
                head == old(state).snake.parts@[0],
                state.snake.is_crashed == (old(state).snake.is_crashed
                    || old(state).stones@.contains(head) || exists|j: int|
                    3 <= j < i && old(state).snake.parts@[j] == head),
            decreases len - i,
        {
            if head == state.snake.parts[i] {
                state.snake.is_crashed = true;
            }
            i = i + 1;
        }
    }
}

/// One snake move: the tail cell is popped, the head advances one cell
/// through the cube topology (possibly turning at an edge), apples are
/// checked and eaten, and crashes are detected.  The faces of the popped
/// tail and of the new head are flagged for redraw.
pub fn move_snake(state: &mut GameState)
    requires
        state_wf(*old(state)),
    ensures
        state_wf(*final(state)),
        move_snake_rel(*old(state), *final(state)),
        final(state).snake.last_move_time == old(state).snake.last_move_time,
{
    // instead of moving each snake part one step ahead, move tail to new head
    let head = state.snake.parts[0];
    let tail = state.snake.parts[state.snake.parts.len() - 1];

    state.cube.sides.set(tail.side);
    state.snake.parts.pop_back();

    let (new_head, new_direction) = get_next_cube_position_and_direction(
        &head,
        state.snake.direction,
        &state.cube.grid,
    );

    state.snake.parts.push_front(new_head);
    state.snake.direction = new_direction;

    state.cube.sides.set(new_head.side);

    check_for_apples(state, tail);
    check_crash(state);
}

/// Silently ignores a request for the exact opposite of the current
/// direction (no 180 degree reversal into the neck); any other direction
/// takes effect immediately, for the next move.
pub fn set_snake_direction(state: &mut GameState, direction: Direction)
    requires
        state_wf(*old(state)),
    ensures
        state_wf(*final(state)),
        final(state).snake.direction == (if direction == opposite_direction_spec(
            old(state).snake.direction,
        ) {
            old(state).snake.direction
        } else {
            direction
        }),
        final(state).snake.parts == old(state).snake.parts,
        final(state).snake.last_move_time == old(state).snake.last_move_time,
        final(state).snake.move_period == old(state).snake.move_period,
        final(state).snake.is_crashed == old(state).snake.is_crashed,
        final(state).cube == old(state).cube,
        final(state).apples == old(state).apples,
        final(state).stones == old(state).stones,
        final(state).status == old(state).status,
{
    if state.snake.direction == get_opposite_direction(direction) {
        proof {
            crate::models::lemma_opposite_direction_involution(direction);
        }
        return ;
    }

    state.snake.direction = direction;
}

/// The tick gate: while the game is running, moves the snake once a full
/// move period has elapsed since the last move (or immediately on the first
/// tick), and records the move's timestamp.  `now` is the caller's clock in
/// milliseconds.
pub fn move_snake_loop(state: &mut GameState, now: u64)
    requires
        state_wf(*old(state)),
    ensures
        state_wf(*final(state)),
        move_due_spec(*old(state), now) ==> move_snake_rel(*old(state), *final(state))
            && final(state).snake.last_move_time == Some(now),
        !move_due_spec(*old(state), now) ==> *final(state) == *old(state),
{
    let due = state.status == GameStatus::InGame && (match state.snake.last_move_time {
        None => true,
        Some(t) => now >= t && now - t >= state.snake.move_period,
    });

    if due {
        move_snake(state);
        state.snake.last_move_time = Some(now);
    }
}

} // verus!
