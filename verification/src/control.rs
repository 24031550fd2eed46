//! Input handling: direction keys (with the camera-relative inversion on
//! the top and bottom faces), the start/pause trigger, and manual drag
//! rotation.

use crate::degrees::{normalize_degrees, normalize_degrees_spec};
use crate::game::{start_or_pause_game, start_or_pause_rel, PlantError};
use crate::models::{
    get_opposite_direction, opposite_direction_spec, point2d_small, state_wf, CameraMode, Cube,
    CubePosition, CubeSideType, Direction, GameState, GameStatus, Grid, ModelRotation, Point2D,
    Snake,
};
use crate::snake::set_snake_direction;
use vstd::prelude::*;

verus! {

/// Hundredths of a degree of target rotation per pixel of mouse drag
/// (0.25 degrees per pixel).
pub const ROTATION_VELOCITY_CDEG_PER_PIXEL: i64 = 25;

/// The key presses the game reacts to.  The caller's input layer maps raw
/// key codes onto these one for one.
#[derive(Clone, Copy, PartialEq, Eq, Structural, Debug)]
pub enum KeyCode {
    ArrowUp,
    ArrowDown,
    ArrowLeft,
    ArrowRight,
    KeyW,
    KeyA,
    KeyS,
    KeyD,
    Space,
    Enter,
    Other,
}

/// The direction a key requests: the arrow keys and WASD.
pub open spec fn key_direction_spec(key: KeyCode) -> Option<Direction> {
    match key {
        KeyCode::ArrowUp | KeyCode::KeyW => Some(Direction::Up),
        KeyCode::ArrowDown | KeyCode::KeyS => Some(Direction::Down),
        KeyCode::ArrowLeft | KeyCode::KeyA => Some(Direction::Left),
        KeyCode::ArrowRight | KeyCode::KeyD => Some(Direction::Right),
        _ => None,
    }
}

/// Whether the key toggles between running and paused.
pub open spec fn key_is_toggle(key: KeyCode) -> bool {
    key == KeyCode::Space || key == KeyCode::Enter
}

/// Whether the camera shows the head's face upside down, so that the
/// direction keys must be inverted: past the grid's midline on the top
/// face, or before it on the bottom face.
pub open spec fn direction_inverted_spec(head: CubePosition, g: Grid) -> bool {
    ||| (head.side == CubeSideType::Up && head.row >= g.rows_count / 2)
    ||| (head.side == CubeSideType::Down && head.row < g.rows_count / 2)
}

/// The direction the snake is asked to take for a key press: the key's
/// direction, inverted when the camera shows the head's face upside down.
pub open spec fn requested_direction_spec(key: KeyCode, head: CubePosition, g: Grid) -> Option<
    Direction,
> {
    match key_direction_spec(key) {
        Some(d) => Some(
            if direction_inverted_spec(head, g) {
                opposite_direction_spec(d)
            } else {
                d
            },
        ),
        None => None,
    }
}

/// Handles one key press: a direction key requests a turn (adjusted for the
/// camera-relative inversion and ignoring a 180 degree reversal), space or
/// enter toggles start/pause (re-planting from `draws` after a finished
/// round), and any other key does nothing.
pub fn on_keydown(state: &mut GameState, key: KeyCode, draws: &Vec<CubePosition>) -> (r: Result<
    (),
    PlantError,
>)
    requires
        state_wf(*old(state)),
    ensures
        state_wf(*final(state)),
        key_is_toggle(key) ==> start_or_pause_rel(*old(state), *final(state), draws@, r),
        !key_is_toggle(key) ==> r is Ok,
        requested_direction_spec(key, old(state).snake.parts@[0], old(state).cube.grid) matches Some(
            eff,
        ) ==> {
            &&& final(state).snake.direction == (if eff == opposite_direction_spec(
                old(state).snake.direction,
            ) {
                old(state).snake.direction
            } else {
                eff
            })
            &&& final(state).snake == (Snake {
                direction: final(state).snake.direction,
                ..old(state).snake
            })
            &&& final(state).cube == old(state).cube
            &&& final(state).apples == old(state).apples
            &&& final(state).stones == old(state).stones
            &&& final(state).status == old(state).status
        },
        (!key_is_toggle(key) && key_direction_spec(key) is None) ==> *final(state) == *old(state),
{
    let mut direction: Option<Direction> = None;

    match key {
        KeyCode::ArrowUp | KeyCode::KeyW => direction = Some(Direction::Up),
        KeyCode::ArrowDown | KeyCode::KeyS => direction = Some(Direction::Down),
        KeyCode::ArrowLeft | KeyCode::KeyA => direction = Some(Direction::Left),
        KeyCode::ArrowRight | KeyCode::KeyD => direction = Some(Direction::Right),
        KeyCode::Space | KeyCode::Enter => {
            return start_or_pause_game(state, draws);
        },
        KeyCode::Other => {},
    }

    if let Some(d) = direction {
        let head = state.snake.parts[0];
        let grid = &state.cube.grid;

        // adjust direction per current camera rotation
        let effective = if (head.side == CubeSideType::Up && head.row >= grid.rows_count / 2) || (
        head.side == CubeSideType::Down && head.row < grid.rows_count / 2) {
            get_opposite_direction(d)
        } else {
            d
        };

        set_snake_direction(state, effective);
    }

    Ok(())
}

/// A mouse press outside a running game starts a manual drag and hands the
/// camera to manual control.
pub fn on_mousedown(state: &mut GameState)
    requires
        state_wf(*old(state)),
    ensures
        state_wf(*final(state)),
        old(state).status != GameStatus::InGame ==> final(state).cube
            == (Cube {
            mouse_is_dragging: true,
            camera_mode: CameraMode::ManualControl,
            ..old(state).cube
        }),
        old(state).status == GameStatus::InGame ==> final(state).cube == old(state).cube,
        final(state).snake == old(state).snake,
        final(state).apples == old(state).apples,
        final(state).stones == old(state).stones,
        final(state).status == old(state).status,
{
    if state.status != GameStatus::InGame {
        state.cube.mouse_is_dragging = true;
        state.cube.camera_mode = CameraMode::ManualControl;
    }
}

/// Releasing the mouse ends the drag; the camera mode is left as it is.
pub fn on_mouseup(state: &mut GameState)
    requires
        state_wf(*old(state)),
    ensures
        state_wf(*final(state)),
        final(state).cube == (Cube {
            mouse_is_dragging: false,
            mouse_pos: None,
            ..old(state).cube
        }),
        final(state).snake == old(state).snake,
        final(state).apples == old(state).apples,
        final(state).stones == old(state).stones,
        final(state).status == old(state).status,
{
    state.cube.mouse_is_dragging = false;
    state.cube.mouse_pos = None;
}

/// The target rotation after dragging by one pixel delta: a quarter of a
/// degree per pixel on each axis, normalized.
pub open spec fn dragged_rotation_spec(target: ModelRotation, dx: int, dy: int) -> ModelRotation {
    ModelRotation {
        x: normalize_degrees_spec(target.x - dy * ROTATION_VELOCITY_CDEG_PER_PIXEL) as i64,
        y: normalize_degrees_spec(target.y - dx * ROTATION_VELOCITY_CDEG_PER_PIXEL) as i64,
    }
}

/// Integrates a mouse movement into the camera while a drag is running:
/// the pixel delta from the last remembered position turns the target
/// rotation at a quarter degree per pixel, the current rotation snaps to
/// the target, and the cube is flagged for redraw.  The first movement of a
/// drag only records the position.
pub fn on_mousemove(state: &mut GameState, mouse_pos: Point2D)
    requires
        state_wf(*old(state)),
        point2d_small(mouse_pos),
    ensures
        state_wf(*final(state)),
        !old(state).cube.mouse_is_dragging ==> *final(state) == *old(state),
        old(state).cube.mouse_is_dragging ==> {
            &&& final(state).cube.mouse_pos == Some(mouse_pos)
            &&& (old(state).cube.mouse_pos matches Some(prev) ==> {
                let dragged = dragged_rotation_spec(
                    old(state).cube.target_rotation,
                    prev.x - mouse_pos.x,
                    prev.y - mouse_pos.y,
                );
                &&& final(state).cube == (Cube {
                    target_rotation: dragged,
                    current_rotation: dragged,
                    needs_redraw: true,
                    mouse_pos: Some(mouse_pos),
                    ..old(state).cube
                })
            })
            &&& (old(state).cube.mouse_pos is None ==> final(state).cube == (Cube {
                mouse_pos: Some(mouse_pos),
                ..old(state).cube
            }))
            &&& final(state).snake == old(state).snake
            &&& final(state).apples == old(state).apples
            &&& final(state).stones == old(state).stones
            &&& final(state).status == old(state).status
        },
{
    if !state.cube.mouse_is_dragging {
        return ;
    }

    if let Some(cube_mouse_pos) = state.cube.mouse_pos {
        let dx = cube_mouse_pos.x - mouse_pos.x;
        let dy = cube_mouse_pos.y - mouse_pos.y;

        state.cube.target_rotation.x = normalize_degrees(
            state.cube.target_rotation.x - dy * ROTATION_VELOCITY_CDEG_PER_PIXEL,
        );
        state.cube.target_rotation.y = normalize_degrees(
            state.cube.target_rotation.y - dx * ROTATION_VELOCITY_CDEG_PER_PIXEL,
        );

        state.cube.current_rotation = state.cube.target_rotation;

        state.cube.needs_redraw = true;
    }

    state.cube.mouse_pos = Some(mouse_pos);
}

} // verus!
