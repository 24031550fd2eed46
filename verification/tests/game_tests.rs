use snake_3d::game::{
    evaluate_game_status, init_game_state, plant_objects, start_or_pause_game, PlantError,
    APPLES_COUNT, STONES_COUNT,
};
use snake_3d::models::{
    CameraMode, CubePosition, CubeSideType, Direction, GameState, GameStatus,
};
use snake_3d::snake::{move_snake, move_snake_loop, set_snake_direction};

fn pos(side: CubeSideType, row: i32, col: i32) -> CubePosition {
    CubePosition { side, row, col }
}

/// Enough distinct draws to plant ten apples and ten stones.
fn plenty_of_draws() -> Vec<CubePosition> {
    let mut draws = Vec::new();
    for row in 1..4 {
        for col in 0..16 {
            draws.push(pos(CubeSideType::Back, row, col));
        }
    }
    draws
}

fn all_sides_flagged(state: &GameState) -> bool {
    let s = state.cube.sides;
    s.front && s.back && s.up && s.down && s.left && s.right
}

#[test]
fn eating_an_apple_grows_and_speeds_up() {
    let mut state = GameState::default();
    state.status = GameStatus::InGame;
    state.apples.push(pos(CubeSideType::Front, 0, 1));
    state.apples.push(pos(CubeSideType::Front, 5, 5));

    assert_eq!(state.snake.move_period, 150);
    assert_eq!(state.snake.parts.len(), 1);

    // the snake starts at (Front, 0, 0) heading right, so the first move
    // lands on the apple
    move_snake_loop(&mut state, 0);

    assert_eq!(state.snake.move_period, 142); // 150 * 0.95 truncated
    assert_eq!(state.snake.parts.len(), 2); // grew by the re-appended tail
    assert_eq!(state.snake.parts[0], pos(CubeSideType::Front, 0, 1));
    assert_eq!(state.snake.parts[1], pos(CubeSideType::Front, 0, 0));
    assert_eq!(state.apples.len(), 1);
    assert_eq!(state.snake.last_move_time, Some(0));
    assert!(!state.snake.is_crashed);
}

#[test]
fn crash_on_stone_then_fail() {
    let mut state = GameState::default();
    state.status = GameStatus::InGame;
    state.cube.camera_mode = CameraMode::FollowSnake;
    state.apples.push(pos(CubeSideType::Up, 3, 3));
    state.stones.push(pos(CubeSideType::Front, 0, 1));
    // clear the redraw flags to see them raised again
    state.cube.sides.front = false;
    state.cube.sides.back = false;
    state.cube.sides.up = false;
    state.cube.sides.down = false;
    state.cube.sides.left = false;
    state.cube.sides.right = false;

    move_snake_loop(&mut state, 0);
    assert!(state.snake.is_crashed);
    assert_eq!(state.status, GameStatus::InGame);

    evaluate_game_status(&mut state);
    assert_eq!(state.status, GameStatus::Fail);
    assert_eq!(state.cube.camera_mode, CameraMode::Overview);
    assert!(all_sides_flagged(&state));
}

#[test]
fn eating_the_last_apple_wins_the_same_tick() {
    let mut state = GameState::default();
    state.status = GameStatus::InGame;
    state.cube.camera_mode = CameraMode::FollowSnake;
    state.apples.push(pos(CubeSideType::Front, 0, 1));

    move_snake_loop(&mut state, 0);
    assert_eq!(state.apples.len(), 0);
    assert!(!state.snake.is_crashed);

    evaluate_game_status(&mut state);
    assert_eq!(state.status, GameStatus::Win);
    assert_eq!(state.cube.camera_mode, CameraMode::Overview);
    assert!(all_sides_flagged(&state));
}

#[test]
fn evaluation_leaves_other_states_alone() {
    let mut state = GameState::default();
    state.status = GameStatus::Paused;
    state.snake.is_crashed = true;
    evaluate_game_status(&mut state);
    assert_eq!(state.status, GameStatus::Paused);
}

#[test]
fn move_waits_for_the_period() {
    let mut state = GameState::default();
    state.status = GameStatus::InGame;
    state.apples.push(pos(CubeSideType::Up, 3, 3));
    state.snake.last_move_time = Some(100);

    // 100 ms later: period of 150 ms not yet over
    move_snake_loop(&mut state, 200);
    assert_eq!(state.snake.parts[0], pos(CubeSideType::Front, 0, 0));
    assert_eq!(state.snake.last_move_time, Some(100));

    // 150 ms later: due
    move_snake_loop(&mut state, 250);
    assert_eq!(state.snake.parts[0], pos(CubeSideType::Front, 0, 1));
    assert_eq!(state.snake.last_move_time, Some(250));
}

#[test]
fn no_move_outside_the_game() {
    let mut state = GameState::default();
    state.status = GameStatus::Paused;
    move_snake_loop(&mut state, 0);
    assert_eq!(state.snake.parts[0], pos(CubeSideType::Front, 0, 0));
    assert_eq!(state.snake.last_move_time, None);
}

#[test]
fn snake_follows_its_own_body() {
    let mut state = GameState::default();
    state.status = GameStatus::InGame;
    state.apples.push(pos(CubeSideType::Up, 3, 3));

    move_snake_loop(&mut state, 0);
    move_snake_loop(&mut state, 1000);
    assert_eq!(state.snake.parts[0], pos(CubeSideType::Front, 0, 2));
    assert_eq!(state.snake.parts.len(), 1);
}

#[test]
fn reversal_into_the_neck_is_ignored() {
    let mut state = GameState::default();
    assert_eq!(state.snake.direction, Direction::Right);
    set_snake_direction(&mut state, Direction::Left);
    assert_eq!(state.snake.direction, Direction::Right);
    set_snake_direction(&mut state, Direction::Up);
    assert_eq!(state.snake.direction, Direction::Up);
    set_snake_direction(&mut state, Direction::Down);
    assert_eq!(state.snake.direction, Direction::Up);
}

#[test]
fn planting_fills_both_sets() {
    let mut state = GameState::default();
    let draws = plenty_of_draws();
    assert_eq!(plant_objects(&mut state, &draws), Ok(()));
    assert_eq!(state.apples.len(), APPLES_COUNT);
    assert_eq!(state.stones.len(), STONES_COUNT);
    assert!(all_sides_flagged(&state));
    // apples and stones are distinct cells, and none on the snake start
    let mut all: Vec<CubePosition> = Vec::new();
    all.extend(state.apples.iter().copied());
    all.extend(state.stones.iter().copied());
    for (i, a) in all.iter().enumerate() {
        assert_ne!(*a, pos(CubeSideType::Front, 0, 0));
        for b in &all[i + 1..] {
            assert_ne!(*a, *b);
        }
    }
    // the snake is reset
    assert_eq!(state.snake.parts.len(), 1);
    assert_eq!(state.snake.parts[0], pos(CubeSideType::Front, 0, 0));
    assert_eq!(state.snake.move_period, 150);
}

#[test]
fn planting_rejects_collisions() {
    let mut state = GameState::default();
    let mut draws = Vec::new();
    // the snake's start cell and a duplicate are rejected, not planted twice
    draws.push(pos(CubeSideType::Front, 0, 0));
    draws.push(pos(CubeSideType::Back, 1, 1));
    draws.push(pos(CubeSideType::Back, 1, 1));
    draws.extend(plenty_of_draws());
    assert_eq!(plant_objects(&mut state, &draws), Ok(()));
    assert!(!state.apples.contains(&pos(CubeSideType::Front, 0, 0)));
    assert!(!state.stones.contains(&pos(CubeSideType::Front, 0, 0)));
    let dups = state
        .apples
        .iter()
        .chain(state.stones.iter())
        .filter(|p| **p == pos(CubeSideType::Back, 1, 1))
        .count();
    assert_eq!(dups, 1);
}

#[test]
fn planting_runs_out_of_draws() {
    let mut state = GameState::default();
    state.status = GameStatus::Win;
    let draws = vec![pos(CubeSideType::Back, 1, 1), pos(CubeSideType::Back, 1, 2)];
    assert_eq!(plant_objects(&mut state, &draws), Err(PlantError::DrawsExhausted));
    // the state is left untouched
    assert_eq!(state.apples.len(), 0);
    assert_eq!(state.stones.len(), 0);
    assert_eq!(state.status, GameStatus::Win);
}

#[test]
fn start_pause_transitions() {
    let mut state = GameState::default();
    let draws = plenty_of_draws();

    assert_eq!(state.status, GameStatus::Welcome);
    assert_eq!(start_or_pause_game(&mut state, &draws), Ok(()));
    assert_eq!(state.status, GameStatus::InGame);
    assert_eq!(state.cube.camera_mode, CameraMode::FollowSnake);
    assert!(all_sides_flagged(&state));

    assert_eq!(start_or_pause_game(&mut state, &draws), Ok(()));
    assert_eq!(state.status, GameStatus::Paused);
    assert_eq!(state.cube.camera_mode, CameraMode::Overview);

    assert_eq!(start_or_pause_game(&mut state, &draws), Ok(()));
    assert_eq!(state.status, GameStatus::InGame);
}

#[test]
fn restart_replants() {
    let mut state = GameState::default();
    let draws = plenty_of_draws();
    assert_eq!(init_game_state(&mut state, &draws), Ok(()));
    assert_eq!(state.status, GameStatus::Welcome);
    assert_eq!(state.apples.len(), APPLES_COUNT);

    // lose the round, then restart: objects are planted afresh
    state.status = GameStatus::Fail;
    state.apples.clear();
    state.snake.is_crashed = true;
    assert_eq!(start_or_pause_game(&mut state, &draws), Ok(()));
    assert_eq!(state.status, GameStatus::InGame);
    assert_eq!(state.apples.len(), APPLES_COUNT);
    assert_eq!(state.stones.len(), STONES_COUNT);
    assert!(!state.snake.is_crashed);
    assert_eq!(state.snake.parts.len(), 1);

    // a failed restart leaves the finished round in place
    state.status = GameStatus::Win;
    let empty: Vec<CubePosition> = Vec::new();
    assert_eq!(
        start_or_pause_game(&mut state, &empty),
        Err(PlantError::DrawsExhausted)
    );
    assert_eq!(state.status, GameStatus::Win);
}

#[test]
fn growth_reappends_the_popped_tail() {
    let mut state = GameState::default();
    state.status = GameStatus::InGame;
    // grow the snake to three cells heading right along the bottom row
    state.snake.parts.clear();
    state.snake.parts.push_back(pos(CubeSideType::Front, 0, 2));
    state.snake.parts.push_back(pos(CubeSideType::Front, 0, 1));
    state.snake.parts.push_back(pos(CubeSideType::Front, 0, 0));
    state.apples.push(pos(CubeSideType::Front, 0, 3));

    move_snake(&mut state);

    // the popped tail (Front,0,0) is re-appended
    let parts: Vec<CubePosition> = state.snake.parts.iter().copied().collect();
    assert_eq!(
        parts,
        vec![
            pos(CubeSideType::Front, 0, 3),
            pos(CubeSideType::Front, 0, 2),
            pos(CubeSideType::Front, 0, 1),
            pos(CubeSideType::Front, 0, 0),
        ]
    );
}

#[test]
fn move_flags_the_touched_faces() {
    let mut state = GameState::default();
    state.status = GameStatus::InGame;
    state.apples.push(pos(CubeSideType::Up, 3, 3));
    state.cube.sides.front = false;
    state.cube.sides.back = false;
    state.cube.sides.up = false;
    state.cube.sides.down = false;
    state.cube.sides.left = false;
    state.cube.sides.right = false;
    // snake on the front face moving within it
    move_snake(&mut state);
    assert!(state.cube.sides.front);
    assert!(!state.cube.sides.back);
    assert!(!state.cube.sides.up);
}
