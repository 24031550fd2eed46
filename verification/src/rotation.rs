//! The camera rotation animator: each tick the current rotation moves
//! toward the target rotation along the shortest circular path, with a
//! step size proportional to the remaining distance.
//!
//! All angles are in hundredths of a degree, normalized to (-180, 180]
//! degrees.

use crate::degrees::{normalize_degrees, normalize_degrees_spec};
use crate::models::{
    cdeg_normalized, CameraMode, GameState, ModelRotation, rotation_normalized, state_wf,
};
use crate::ranges::{project_to_range, project_to_range_spec, Span};
use vstd::prelude::*;

verus! {

/// Smallest per-tick step of the auto rotation, in hundredths of a degree
/// (0.5 degrees); distances below it snap straight to the target.
pub const AUTO_ROTATION_STEP_MIN_CDEG: i64 = 50;

/// Largest per-tick step of the auto rotation, in hundredths of a degree
/// (10 degrees), reached at a distance of half a circle.
pub const AUTO_ROTATION_STEP_MAX_CDEG: i64 = 1000;

/// The per-tick spin of the idle overview camera, in hundredths of a degree
/// (0.3 degrees), applied against the y axis.
pub const OVERVIEW_SPIN_CDEG: i64 = 30;

/// Which way the current angle moves toward the target angle, for angles
/// normalized to (-180, 180] degrees: 0 when equal; toward the target along
/// the number line when both angles have the same sign; for opposite signs,
/// through zero or across the 180/-180 seam, whichever arc is shorter.  A
/// distance of exactly half a circle goes through zero when the current
/// angle is positive and across the seam when it is negative.
pub open spec fn rotation_direction_spec(from: int, to: int) -> int {
    if from == to {
        0
    } else if from >= 0 && to >= 0 {
        if from > to { -1 } else { 1 }
    } else if from <= 0 && to <= 0 {
        if from > to { -1 } else { 1 }
    } else if from >= 0 && to <= 0 {
        if from - to <= 18000 { -1 } else { 1 }
    } else {
        if -from + to < 18000 { 1 } else { -1 }
    }
}

/// The sign (1, -1 or 0) of the step that moves `from` toward `to` along
/// the shorter way around the circle.
pub fn get_rotation_direction(from: i64, to: i64) -> (r: i32)
    requires
        cdeg_normalized(from),
        cdeg_normalized(to),
    ensures
        r as int == rotation_direction_spec(from as int, to as int),
{
    if from == to {
        return 0;
    }

    if from >= 0 && to >= 0 {
        return if from > to { -1 } else { 1 };
    }

    if from <= 0 && to <= 0 {
        return if from > to { -1 } else { 1 };
    }

    if from >= 0 && to <= 0 {
        return if from - to <= 18000 { -1 } else { 1 };
    }

    if from <= 0 && to >= 0 {
        return if -from + to < 18000 { 1 } else { -1 };
    }

    proof {
        assert(false);
    }
    0
}

/// The circular distance between two normalized angles: the smaller of the
/// two arcs between them, at most half a circle.
pub open spec fn circular_distance_spec(a: int, b: int) -> int {
    let d1 = abs_spec(a - b);
    let d2 = abs_spec(a - b - 36000);
    let d3 = abs_spec(a - b + 36000);
    min_spec(d1, min_spec(d2, d3))
}

pub open spec fn abs_spec(a: int) -> int {
    if a >= 0 { a } else { -a }
}

pub open spec fn min_spec(a: int, b: int) -> int {
    if a <= b { a } else { b }
}

/// Where the current angle stands after one animation tick toward the
/// target: unchanged distance below half a degree snaps to the target;
/// otherwise the angle moves by a step interpolated from the remaining
/// distance (between half a degree and ten degrees) in the direction of the
/// shorter arc, and is normalized again.
pub open spec fn rotation_step_spec(current: int, target: int) -> int {
    let d = circular_distance_spec(current, target);
    if d < AUTO_ROTATION_STEP_MIN_CDEG as int {
        target
    } else {
        let step = project_to_range_spec(
            d,
            Span(0i64, 18000i64),
            Span(AUTO_ROTATION_STEP_MIN_CDEG, AUTO_ROTATION_STEP_MAX_CDEG),
        );
        normalize_degrees_spec(current + step * rotation_direction_spec(current, target))
    }
}

fn abs_i64(a: i64) -> (r: i64)
    requires
        i64::MIN < a,
    ensures
        r == abs_spec(a as int),
{
    if a >= 0 { a } else { -a }
}

fn min_i64(a: i64, b: i64) -> (r: i64)
    ensures
        r == min_spec(a as int, b as int),
{
    if a <= b { a } else { b }
}

/// One animation tick of a single rotation axis.
pub fn make_rotation_step(current_angle: i64, target_angle: i64) -> (r: i64)
    requires
        cdeg_normalized(current_angle),
        cdeg_normalized(target_angle),
    ensures
        r == rotation_step_spec(current_angle as int, target_angle as int),
        cdeg_normalized(r),
{
    let diff = current_angle - target_angle;
    let angle_diff = min_i64(abs_i64(diff), min_i64(abs_i64(diff - 36000), abs_i64(diff + 36000)));

    if angle_diff < AUTO_ROTATION_STEP_MIN_CDEG {
        proof {
            crate::degrees::lemma_normalize_degrees_fixed_point(target_angle as int);
        }
        return target_angle;
    }

    let rotation_step = project_to_range(
        angle_diff,
        Span(0, 18000),
        Span(AUTO_ROTATION_STEP_MIN_CDEG, AUTO_ROTATION_STEP_MAX_CDEG),
    );

    let direction = get_rotation_direction(current_angle, target_angle);
    proof {
        assert(-1 <= direction <= 1);
        assert(-1000 <= rotation_step as int * (direction as int) <= 1000) by (nonlinear_arith)
            requires
                50 <= rotation_step <= 1000,
                -1 <= direction <= 1,
        ;
    }
    normalize_degrees(current_angle + rotation_step * (direction as i64))
}

/// The target rotation after one camera tick: the overview camera spins
/// slowly around the y axis; the following camera takes the externally
/// solved rotation for the snake's head when one is supplied; manual
/// control leaves the target to the drag handler.
pub open spec fn auto_target_spec(
    current_target: ModelRotation,
    camera_mode: CameraMode,
    follow_rotation: Option<ModelRotation>,
) -> ModelRotation {
    if camera_mode == CameraMode::Overview {
        ModelRotation {
            x: current_target.x,
            y: normalize_degrees_spec(current_target.y - OVERVIEW_SPIN_CDEG) as i64,
        }
    } else if camera_mode == CameraMode::FollowSnake && follow_rotation is Some {
        follow_rotation->0
    } else {
        current_target
    }
}

/// One camera tick: advances the target per the camera mode, raises the
/// cube redraw flag when the camera still has to move, and steps each axis
/// of the current rotation that differs from the target.
///
/// `follow_rotation` is the rotation that faces the snake's head, solved
/// outside from the head's projected 3D point; it is consulted only in
/// follow mode.
pub fn auto_rotate_loop(state: &mut GameState, follow_rotation: Option<ModelRotation>)
    requires
        state_wf(*old(state)),
        follow_rotation matches Some(f) ==> rotation_normalized(f),
    ensures
        state_wf(*final(state)),
        final(state).cube.target_rotation == auto_target_spec(
            old(state).cube.target_rotation,
            old(state).cube.camera_mode,
            follow_rotation,
        ),
        final(state).cube.needs_redraw == (old(state).cube.needs_redraw
            || old(state).cube.current_rotation != final(state).cube.target_rotation),
        final(state).cube.current_rotation.x == (if old(state).cube.current_rotation.x
            == final(state).cube.target_rotation.x {
            old(state).cube.current_rotation.x as int
        } else {
            rotation_step_spec(
                old(state).cube.current_rotation.x as int,
                final(state).cube.target_rotation.x as int,
            )
        }),
        final(state).cube.current_rotation.y == (if old(state).cube.current_rotation.y
            == final(state).cube.target_rotation.y {
            old(state).cube.current_rotation.y as int
        } else {
            rotation_step_spec(
                old(state).cube.current_rotation.y as int,
                final(state).cube.target_rotation.y as int,
            )
        }),
        final(state).cube.camera_mode == old(state).cube.camera_mode,
        final(state).cube.mouse_is_dragging == old(state).cube.mouse_is_dragging,
        final(state).cube.mouse_pos == old(state).cube.mouse_pos,
        final(state).cube.grid == old(state).cube.grid,
        final(state).cube.sides == old(state).cube.sides,
        final(state).snake == old(state).snake,
        final(state).apples == old(state).apples,
        final(state).stones == old(state).stones,
        final(state).status == old(state).status,
{
    if state.cube.camera_mode == CameraMode::Overview {
        state.cube.target_rotation.y = normalize_degrees(state.cube.target_rotation.y
            - OVERVIEW_SPIN_CDEG);
    }

    if state.cube.camera_mode == CameraMode::FollowSnake {
        if let Some(follow) = follow_rotation {
            state.cube.target_rotation = follow;
        }
    }

    if state.cube.current_rotation != state.cube.target_rotation {
        state.cube.needs_redraw = true;
    }

    if state.cube.current_rotation.x != state.cube.target_rotation.x {
        state.cube.current_rotation.x = make_rotation_step(
            state.cube.current_rotation.x,
            state.cube.target_rotation.x,
        );
    }

    if state.cube.current_rotation.y != state.cube.target_rotation.y {
        state.cube.current_rotation.y = make_rotation_step(
            state.cube.current_rotation.y,
            state.cube.target_rotation.y,
        );
    }
}

} // verus!

