//! The game state machine: round status transitions, win/fail evaluation,
//! and the planting of snake, apples and stones at round start.
//!
//! Planting draws cells from a caller-supplied list of random draws (the
//! game itself has no randomness); draws that collide with an already
//! placed object are rejected, and running out of draws is a capacity
//! error.

use crate::models::{
    pos_in_bounds, positions_in_bounds, snake_default_spec, snake_start_position, state_wf,
    CameraMode, Cube, CubePosition, GameState, GameStatus, Grid, Snake,
};
use vstd::prelude::*;
use vstd::seq_lib::*;

verus! {

broadcast use vstd::seq_lib::lemma_seq_contains_after_push;

/// Apples planted at the start of each round.
pub const APPLES_COUNT: usize = 10;

/// Stones planted at the start of each round.
pub const STONES_COUNT: usize = 10;

/// Planting failed: the supplied draws ran out before every object found a
/// free cell.
#[derive(Clone, Copy, PartialEq, Eq, Structural, Debug)]
pub enum PlantError {
    DrawsExhausted,
}

/// What rejection sampling over `draws` yields, given the cells already
/// `occupied` and the objects placed so far: each usable draw (on the grid
/// and on no occupied cell) becomes an apple until the apples are complete,
/// then a stone; `None` when the draws run out first.
pub open spec fn plant_rec(
    draws: Seq<CubePosition>,
    g: Grid,
    occupied: Seq<CubePosition>,
    apples: Seq<CubePosition>,
    stones: Seq<CubePosition>,
) -> Option<(Seq<CubePosition>, Seq<CubePosition>)>
    decreases draws.len(),
{
    if apples.len() >= APPLES_COUNT && stones.len() >= STONES_COUNT {
        Some((apples, stones))
    } else if draws.len() == 0 {
        None
    } else {
        let d = draws[0];
        let rest = draws.drop_first();
        if pos_in_bounds(d, g) && !occupied.contains(d) {
            if apples.len() < APPLES_COUNT {
                plant_rec(rest, g, occupied.push(d), apples.push(d), stones)
            } else {
                plant_rec(rest, g, occupied.push(d), apples, stones.push(d))
            }
        } else {
            plant_rec(rest, g, occupied, apples, stones)
        }
    }
}

/// The apples and stones a round planted from `draws`: rejection sampling
/// starting from the snake's start cell as the only occupied cell.
pub open spec fn plant_spec(draws: Seq<CubePosition>, g: Grid) -> Option<
    (Seq<CubePosition>, Seq<CubePosition>),
> {
    plant_rec(draws, g, seq![snake_start_position()], Seq::empty(), Seq::empty())
}

/// Whatever rejection sampling accepts is sound: full counts, all cells on
/// the grid, no duplicates, apples and stones disjoint, and no cell that
/// was occupied beforehand (and outside the given objects) is ever taken.
pub proof fn lemma_plant_rec_props(
    draws: Seq<CubePosition>,
    g: Grid,
    occupied: Seq<CubePosition>,
    apples: Seq<CubePosition>,
    stones: Seq<CubePosition>,
)
    requires
        forall|p: CubePosition| apples.contains(p) ==> occupied.contains(p),
        forall|p: CubePosition| stones.contains(p) ==> occupied.contains(p),
        apples.no_duplicates(),
        stones.no_duplicates(),
        forall|p: CubePosition| !(apples.contains(p) && stones.contains(p)),
        positions_in_bounds(apples, g),
        positions_in_bounds(stones, g),
        apples.len() <= APPLES_COUNT,
        stones.len() <= STONES_COUNT,
    ensures
        plant_rec(draws, g, occupied, apples, stones) matches Some((a, s)) ==> {
            &&& a.len() == APPLES_COUNT
            &&& s.len() == STONES_COUNT
            &&& a.no_duplicates()
            &&& s.no_duplicates()
            &&& forall|p: CubePosition| !(a.contains(p) && s.contains(p))
            &&& positions_in_bounds(a, g)
            &&& positions_in_bounds(s, g)
            &&& forall|p: CubePosition|
                occupied.contains(p) && !apples.contains(p) && !stones.contains(p) ==> !a.contains(
                    p,
                ) && !s.contains(p)
        },
    decreases draws.len(),
{
    if apples.len() >= APPLES_COUNT && stones.len() >= STONES_COUNT {
    } else if draws.len() == 0 {
    } else {
        let d = draws[0];
        let rest = draws.drop_first();
        if pos_in_bounds(d, g) && !occupied.contains(d) {
            if apples.len() < APPLES_COUNT {
                lemma_plant_rec_props(rest, g, occupied.push(d), apples.push(d), stones);
            } else {
                lemma_plant_rec_props(rest, g, occupied.push(d), apples, stones.push(d));
            }
        } else {
            lemma_plant_rec_props(rest, g, occupied, apples, stones);
        }
    }
}

/// What a successful plant guarantees: full counts, every cell on the
/// grid, no duplicate apples or stones, apples and stones disjoint, and
/// neither on the snake's start cell.
pub proof fn lemma_plant_spec_props(draws: Seq<CubePosition>, g: Grid)
    ensures
        plant_spec(draws, g) matches Some((a, s)) ==> {
            &&& a.len() == APPLES_COUNT
            &&& s.len() == STONES_COUNT
            &&& a.no_duplicates()
            &&& s.no_duplicates()
            &&& forall|p: CubePosition| !(a.contains(p) && s.contains(p))
            &&& positions_in_bounds(a, g)
            &&& positions_in_bounds(s, g)
            &&& !a.contains(snake_start_position())
            &&& !s.contains(snake_start_position())
        },
{
    let occupied = seq![snake_start_position()];
    lemma_plant_rec_props(draws, g, occupied, Seq::empty(), Seq::empty());
    assert(occupied[0] == snake_start_position());
    assert(occupied.contains(snake_start_position()));
}

/// Checks on the grid's bounds.
fn pos_in_bounds_exec(p: CubePosition, g: Grid) -> (r: bool)
    ensures
        r == pos_in_bounds(p, g),
{
    0 <= p.row && p.row < g.rows_count && 0 <= p.col && p.col < g.cols_count
}

/// How planting transforms the state: on success the snake is reset to its
/// start, the apples and stones are exactly what rejection sampling over
/// `draws` yields, every face is flagged for redraw and nothing else
/// changes; when the draws run out the state is left untouched.
pub open spec fn plant_rel(
    pre: GameState,
    post: GameState,
    draws: Seq<CubePosition>,
    r: Result<(), PlantError>,
) -> bool {
    &&& (r is Ok <==> plant_spec(draws, pre.cube.grid) is Some)
    &&& (r is Err ==> post == pre && r == Result::<(), PlantError>::Err(
        PlantError::DrawsExhausted,
    ))
    &&& (r is Ok ==> {
        let (a, s) = plant_spec(draws, pre.cube.grid)->0;
        &&& post.apples@ == a
        &&& post.stones@ == s
        &&& snake_default_spec(post.snake)
        &&& post.cube.sides.all_set()
        &&& post.cube == (Cube { sides: post.cube.sides, ..pre.cube })
        &&& post.status == pre.status
    })
}

/// Re-plants the round's objects: resets the snake to its fixed start cell
/// and places `APPLES_COUNT` apples and then `STONES_COUNT` stones on
/// distinct free cells, drawing candidate cells from `draws` and rejecting
/// collisions.  Fails without touching the state when `draws` runs out.
pub fn plant_objects(state: &mut GameState, draws: &Vec<CubePosition>) -> (r: Result<
    (),
    PlantError,
>)
    requires
        state_wf(*old(state)),
    ensures
        state_wf(*final(state)),
        plant_rel(*old(state), *final(state), draws@, r),
{
    let g = state.cube.grid;

    let mut occupied: Vec<CubePosition> = Vec::new();
    occupied.push(CubePosition { side: crate::models::CubeSideType::Front, row: 0, col: 0 });
    let mut apples: Vec<CubePosition> = Vec::new();
    let mut stones: Vec<CubePosition> = Vec::new();
    let mut idx: usize = 0;

    proof {
        assert(draws@.skip(0) =~= draws@);
        assert(occupied@ =~= seq![snake_start_position()]);
    }

    while (apples.len() < APPLES_COUNT || stones.len() < STONES_COUNT) && idx < draws.len()
        invariant
            0 <= idx <= draws@.len(),
            apples@.len() <= APPLES_COUNT,
            stones@.len() <= STONES_COUNT,
            plant_rec(draws@.skip(idx as int), g, occupied@, apples@, stones@) == plant_spec(
                draws@,
                g,
            ),
            forall|p: CubePosition| apples@.contains(p) ==> occupied@.contains(p),
            forall|p: CubePosition| stones@.contains(p) ==> occupied@.contains(p),
            apples@.no_duplicates(),
            stones@.no_duplicates(),
            forall|p: CubePosition| !(apples@.contains(p) && stones@.contains(p)),
            positions_in_bounds(apples@, g),
            positions_in_bounds(stones@, g),
        decreases draws@.len() - idx,
    {
        let d = draws[idx];
        proof {
            assert(draws@.skip(idx as int)[0] == draws@[idx as int]);
            assert(draws@.skip(idx as int).drop_first() =~= draws@.skip(idx as int + 1));
        }
        if pos_in_bounds_exec(d, g) && !crate::snake::contains_position(&occupied, d) {
            if apples.len() < APPLES_COUNT {
                apples.push(d);
                occupied.push(d);
            } else {
                stones.push(d);
                occupied.push(d);
            }
        }
        idx = idx + 1;
    }

    if apples.len() == APPLES_COUNT && stones.len() == STONES_COUNT {
        proof {
            assert(plant_rec(draws@.skip(idx as int), g, occupied@, apples@, stones@) == Some(
                (apples@, stones@),
            ));
        }
        state.snake = Snake::default();
        state.apples = apples;
        state.stones = stones;
        state.cube.sides.set_all();
        Ok(())
    } else {
        proof {
            assert(idx == draws@.len());
            assert(draws@.skip(idx as int) =~= Seq::<CubePosition>::empty());
            assert(plant_rec(draws@.skip(idx as int), g, occupied@, apples@, stones@) is None);
        }
        Err(PlantError::DrawsExhausted)
    }
}

/// The round status after the autonomous win/fail evaluation: while the
/// game runs, an empty apple set means the round is won (even over a
/// pending crash, which is checked first) and a crashed snake means it is
/// lost; any other state is kept.
pub open spec fn status_after_eval(st: GameState) -> GameStatus {
    if st.status == GameStatus::InGame {
        if st.apples@.len() == 0 {
            GameStatus::Win
        } else if st.snake.is_crashed {
            GameStatus::Fail
        } else {
            GameStatus::InGame
        }
    } else {
        st.status
    }
}

/// How the autonomous win/fail evaluation transforms the state: the status
/// moves as `status_after_eval` says; when a running round ends (crash or
/// no apples left), the camera falls back to the overview and all six faces
/// are flagged for redraw (the status overlay appears); nothing else
/// changes.
pub open spec fn evaluate_rel(pre: GameState, post: GameState) -> bool {
    let ended = pre.status == GameStatus::InGame && (pre.snake.is_crashed || pre.apples@.len()
        == 0);
    &&& post.status == status_after_eval(pre)
    &&& post.cube.camera_mode == (if ended {
        CameraMode::Overview
    } else {
        pre.cube.camera_mode
    })
    &&& (ended ==> post.cube.sides.all_set())
    &&& (!ended ==> post.cube.sides == pre.cube.sides)
    &&& post.cube == (Cube {
        camera_mode: post.cube.camera_mode,
        sides: post.cube.sides,
        ..pre.cube
    })
    &&& post.snake == pre.snake
    &&& post.apples == pre.apples
    &&& post.stones == pre.stones
}

/// The autonomous transitions, evaluated once per tick: while the game
/// runs, a crashed snake ends the round in Fail and an empty apple set ends
/// it in Win; either way the camera falls back to the overview and all six
/// faces are flagged for redraw (the status overlay appears).
pub fn evaluate_game_status(state: &mut GameState)
    requires
        state_wf(*old(state)),
    ensures
        state_wf(*final(state)),
        evaluate_rel(*old(state), *final(state)),
{
    if state.status == GameStatus::InGame {
        if state.snake.is_crashed {
            state.status = GameStatus::Fail;
            state.cube.camera_mode = CameraMode::Overview;
            state.cube.sides.set_all();
        }

        if state.apples.len() == 0 {
            state.status = GameStatus::Win;
            state.cube.camera_mode = CameraMode::Overview;
            state.cube.sides.set_all();
        }
    }
}

/// A move that lands the snake's head on a stone marks it crashed, and the
/// next status evaluation then ends the running round in Fail, turns the
/// camera back to the overview and flags all six faces for redraw.  (A
/// round whose apples run out on the same move is won instead: the win
/// check comes last.)
pub proof fn lemma_crash_on_stone_fails_round(
    pre: GameState,
    moved: GameState,
    evaluated: GameState,
)
    requires
        crate::snake::move_snake_rel(pre, moved),
        pre.stones@.contains(crate::snake::new_head_spec(pre)),
        moved.status == GameStatus::InGame,
        moved.apples@.len() > 0,
        evaluate_rel(moved, evaluated),
    ensures
        moved.snake.is_crashed,
        evaluated.status == GameStatus::Fail,
        evaluated.cube.camera_mode == CameraMode::Overview,
        evaluated.cube.sides.all_set(),
{
}

/// Eating the only remaining apple empties the apple set, and the status
/// evaluation of the same tick then ends the running round in Win, with the
/// camera back on the overview and all six faces flagged for redraw.
pub proof fn lemma_last_apple_wins_same_tick(
    pre: GameState,
    moved: GameState,
    evaluated: GameState,
)
    requires
        crate::snake::move_snake_rel(pre, moved),
        crate::snake::snake_ate_spec(pre),
        pre.apples@.len() == 1,
        !moved.snake.is_crashed,
        moved.status == GameStatus::InGame,
        evaluate_rel(moved, evaluated),
    ensures
        moved.apples@.len() == 0,
        evaluated.status == GameStatus::Win,
        evaluated.cube.camera_mode == CameraMode::Overview,
        evaluated.cube.sides.all_set(),
{
    let nh = crate::snake::new_head_spec(pre);
    pre.apples@.index_of_first_ensures(nh);
}

/// The status the start/pause trigger switches to: every non-running state
/// enters (or re-enters) the game; the running game pauses.
pub open spec fn toggled_status(s: GameStatus) -> GameStatus {
    match s {
        GameStatus::InGame => GameStatus::Paused,
        _ => GameStatus::InGame,
    }
}

/// How the start/pause trigger transforms the state.  A restart from Win or
/// Fail re-plants the objects from `draws` first and keeps the state
/// untouched if planting fails; on success the status toggles, the camera
/// follows the snake exactly while the game runs, and every face is flagged
/// for redraw.
pub open spec fn start_or_pause_rel(
    pre: GameState,
    post: GameState,
    draws: Seq<CubePosition>,
    r: Result<(), PlantError>,
) -> bool {
    let restart = pre.status == GameStatus::Win || pre.status == GameStatus::Fail;
    &&& (r is Err <==> restart && plant_spec(draws, pre.cube.grid) is None)
    &&& (r is Err ==> post == pre && r == Result::<(), PlantError>::Err(
        PlantError::DrawsExhausted,
    ))
    &&& (r is Ok ==> {
        &&& post.status == toggled_status(pre.status)
        &&& post.cube.camera_mode == (if post.status == GameStatus::InGame {
            CameraMode::FollowSnake
        } else {
            CameraMode::Overview
        })
        &&& post.cube.sides.all_set()
        &&& post.cube == (Cube {
            camera_mode: post.cube.camera_mode,
            sides: post.cube.sides,
            ..pre.cube
        })
        &&& (restart ==> {
            let (a, s) = plant_spec(draws, pre.cube.grid)->0;
            &&& post.apples@ == a
            &&& post.stones@ == s
            &&& snake_default_spec(post.snake)
        })
        &&& (!restart ==> post.apples == pre.apples && post.stones == pre.stones && post.snake
            == pre.snake)
    })
}

/// The start/pause trigger: Welcome and Paused enter the game, Win and Fail
/// re-plant the objects from `draws` and then enter the game, and a running
/// game pauses.  The camera mode follows the new status and every face is
/// flagged for redraw.
pub fn start_or_pause_game(state: &mut GameState, draws: &Vec<CubePosition>) -> (r: Result<
    (),
    PlantError,
>)
    requires
        state_wf(*old(state)),
    ensures
        state_wf(*final(state)),
        start_or_pause_rel(*old(state), *final(state), draws@, r),
{
    match state.status {
        GameStatus::Welcome | GameStatus::Paused => {
            state.status = GameStatus::InGame;
        },
        GameStatus::Win | GameStatus::Fail => {
            match plant_objects(state, draws) {
                Ok(()) => {
                    state.status = GameStatus::InGame;
                },
                Err(e) => {
                    return Err(e);
                },
            }
        },
        GameStatus::InGame => {
            state.status = GameStatus::Paused;
        },
    }

    if state.status == GameStatus::InGame {
        state.cube.camera_mode = CameraMode::FollowSnake;
    } else {
        state.cube.camera_mode = CameraMode::Overview;
    }

    state.cube.sides.set_all();

    Ok(())
}

/// Starts a fresh game: plants the objects from `draws` and shows the
/// welcome screen.  The state is left untouched if the draws run out.
pub fn init_game_state(state: &mut GameState, draws: &Vec<CubePosition>) -> (r: Result<
    (),
    PlantError,
>)
    requires
        state_wf(*old(state)),
    ensures
        state_wf(*final(state)),
        r is Ok <==> plant_spec(draws@, old(state).cube.grid) is Some,
        r is Err ==> *final(state) == *old(state) && r == Result::<(), PlantError>::Err(
            PlantError::DrawsExhausted,
        ),
        r is Ok ==> {
            let planted = plant_spec(draws@, old(state).cube.grid)->0;
            &&& final(state).status == GameStatus::Welcome
            &&& final(state).apples@ == planted.0
            &&& final(state).stones@ == planted.1
            &&& snake_default_spec(final(state).snake)
            &&& final(state).cube.sides.all_set()
            &&& final(state).cube == (Cube { sides: final(state).cube.sides, ..old(state).cube })
        },
{
    match plant_objects(state, draws) {
        Ok(()) => {
            state.status = GameStatus::Welcome;
            Ok(())
        },
        Err(e) => Err(e),
    }
}

} // verus!
