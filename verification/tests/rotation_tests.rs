use snake_3d::models::{
    CameraMode, CubePosition, CubeSideType, Direction, GameState, GameStatus, ModelRotation,
    Point2D,
};
use snake_3d::control::{on_keydown, on_mousedown, on_mousemove, on_mouseup, KeyCode};
use snake_3d::rotation::{auto_rotate_loop, get_rotation_direction, make_rotation_step};

#[test]
fn tie_break_near_the_seam() {
    // current 170 deg, target -170 deg: the difference 340 deg exceeds a
    // half circle, so the step goes forward across the 180/-180 seam
    assert_eq!(get_rotation_direction(17000, -17000), 1);
    let stepped = make_rotation_step(17000, -17000);
    assert!(stepped > 17000, "the step must move toward the seam, not back through 0");
    assert_eq!(stepped, 17155); // step = 50 + 950 * 2000 / 18000 hundredths
}

#[test]
fn rotation_direction_cases() {
    assert_eq!(get_rotation_direction(1000, 1000), 0);
    // same sign: along the number line
    assert_eq!(get_rotation_direction(3000, 1000), -1);
    assert_eq!(get_rotation_direction(1000, 3000), 1);
    assert_eq!(get_rotation_direction(-3000, -1000), 1);
    assert_eq!(get_rotation_direction(-1000, -3000), -1);
    // opposite signs: the shorter arc
    assert_eq!(get_rotation_direction(9000, -3000), -1);
    assert_eq!(get_rotation_direction(-9000, 3000), 1);
    assert_eq!(get_rotation_direction(-17000, 17000), -1);
}

#[test]
fn small_distances_snap_to_target() {
    assert_eq!(make_rotation_step(100, 130), 130);
    assert_eq!(make_rotation_step(17990, -17990), -17990); // 0.2 deg across the seam
}

#[test]
fn step_result_is_normalized() {
    let r = make_rotation_step(18000, -9000);
    assert!(-18000 < r && r <= 18000);
}

#[test]
fn overview_camera_spins_slowly() {
    let mut state = GameState::default();
    assert_eq!(state.cube.camera_mode, CameraMode::Overview);
    state.cube.needs_redraw = false;
    auto_rotate_loop(&mut state, None);
    // the target moved 0.3 deg; the current rotation snapped onto it
    assert_eq!(state.cube.target_rotation, ModelRotation { x: 0, y: -30 });
    assert_eq!(state.cube.current_rotation, ModelRotation { x: 0, y: -30 });
    assert!(state.cube.needs_redraw);
}

#[test]
fn follow_camera_takes_the_solved_rotation() {
    let mut state = GameState::default();
    state.cube.camera_mode = CameraMode::FollowSnake;
    let solved = ModelRotation { x: 4500, y: -9000 };
    auto_rotate_loop(&mut state, Some(solved));
    assert_eq!(state.cube.target_rotation, solved);
    // a long way to go: the current rotation steps, but does not arrive
    assert_ne!(state.cube.current_rotation, solved);
    assert!(state.cube.needs_redraw);
}

#[test]
fn manual_camera_keeps_its_target() {
    let mut state = GameState::default();
    state.cube.camera_mode = CameraMode::ManualControl;
    state.cube.target_rotation = ModelRotation { x: 100, y: 200 };
    state.cube.current_rotation = ModelRotation { x: 100, y: 200 };
    state.cube.needs_redraw = false;
    auto_rotate_loop(&mut state, None);
    assert_eq!(state.cube.target_rotation, ModelRotation { x: 100, y: 200 });
    assert_eq!(state.cube.current_rotation, ModelRotation { x: 100, y: 200 });
    assert!(!state.cube.needs_redraw);
}

#[test]
fn drag_turns_the_camera() {
    let mut state = GameState::default();
    state.status = GameStatus::Paused;
    on_mousedown(&mut state);
    assert!(state.cube.mouse_is_dragging);
    assert_eq!(state.cube.camera_mode, CameraMode::ManualControl);

    // the first movement only records the position
    on_mousemove(&mut state, Point2D { x: 0, y: 0 });
    assert_eq!(state.cube.target_rotation, ModelRotation { x: 0, y: 0 });

    // moving 4 px right and 8 px down turns 0.25 deg per pixel
    on_mousemove(&mut state, Point2D { x: 4, y: 8 });
    assert_eq!(state.cube.target_rotation, ModelRotation { x: 200, y: 100 });
    assert_eq!(state.cube.current_rotation, ModelRotation { x: 200, y: 100 });
    assert!(state.cube.needs_redraw);

    on_mouseup(&mut state);
    assert!(!state.cube.mouse_is_dragging);
    assert_eq!(state.cube.mouse_pos, None);
    // the camera mode stays manual
    assert_eq!(state.cube.camera_mode, CameraMode::ManualControl);
}

#[test]
fn no_drag_while_the_game_runs() {
    let mut state = GameState::default();
    state.status = GameStatus::InGame;
    on_mousedown(&mut state);
    assert!(!state.cube.mouse_is_dragging);
    assert_eq!(state.cube.camera_mode, CameraMode::Overview);
}

#[test]
fn direction_keys_invert_past_the_top_midline() {
    let draws: Vec<CubePosition> = Vec::new();

    // head on the top face past the midline: keys invert
    let mut state = GameState::default();
    state.snake.parts.clear();
    state.snake.parts.push_back(CubePosition { side: CubeSideType::Up, row: 8, col: 3 });
    assert_eq!(on_keydown(&mut state, KeyCode::ArrowUp, &draws), Ok(()));
    assert_eq!(state.snake.direction, Direction::Down);

    // head on the top face before the midline: keys stay as pressed
    let mut state = GameState::default();
    state.snake.parts.clear();
    state.snake.parts.push_back(CubePosition { side: CubeSideType::Up, row: 7, col: 3 });
    assert_eq!(on_keydown(&mut state, KeyCode::ArrowUp, &draws), Ok(()));
    assert_eq!(state.snake.direction, Direction::Up);

    // head on the bottom face before the midline: keys invert
    let mut state = GameState::default();
    state.snake.parts.clear();
    state.snake.parts.push_back(CubePosition { side: CubeSideType::Down, row: 7, col: 3 });
    assert_eq!(on_keydown(&mut state, KeyCode::KeyW, &draws), Ok(()));
    assert_eq!(state.snake.direction, Direction::Down);
}

#[test]
fn keys_map_to_directions_and_toggle() {
    let draws: Vec<CubePosition> = Vec::new();
    let mut state = GameState::default();

    assert_eq!(on_keydown(&mut state, KeyCode::KeyS, &draws), Ok(()));
    assert_eq!(state.snake.direction, Direction::Down);
    assert_eq!(on_keydown(&mut state, KeyCode::ArrowLeft, &draws), Ok(()));
    assert_eq!(state.snake.direction, Direction::Left);
    assert_eq!(on_keydown(&mut state, KeyCode::KeyD, &draws), Ok(()));
    // right is the opposite of left: ignored
    assert_eq!(state.snake.direction, Direction::Left);
    assert_eq!(on_keydown(&mut state, KeyCode::Other, &draws), Ok(()));
    assert_eq!(state.snake.direction, Direction::Left);

    // space starts the game (no planting needed from Welcome)
    assert_eq!(on_keydown(&mut state, KeyCode::Space, &draws), Ok(()));
    assert_eq!(state.status, GameStatus::InGame);
    // enter pauses it again
    assert_eq!(on_keydown(&mut state, KeyCode::Enter, &draws), Ok(()));
    assert_eq!(state.status, GameStatus::Paused);
}
