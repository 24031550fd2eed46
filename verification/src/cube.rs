//! The cube topology: how the six faces are stitched together, and how a
//! grid cell projects to a point on the cube's surface.

use crate::models::{pos_in_bounds, CubePosition, CubeSideType, Direction, Grid, Point3D};
use crate::ranges::Span;
use vstd::prelude::*;

verus! {

/// The row after taking one step in `dir`, before any edge wrapping.
pub open spec fn stepped_row(pos: CubePosition, dir: Direction) -> int {
    match dir {
        Direction::Up => pos.row + 1,
        Direction::Down => pos.row - 1,
        Direction::Left => pos.row as int,
        Direction::Right => pos.row as int,
    }
}

/// The column after taking one step in `dir`, before any edge wrapping.
pub open spec fn stepped_col(pos: CubePosition, dir: Direction) -> int {
    match dir {
        Direction::Up => pos.col as int,
        Direction::Down => pos.col as int,
        Direction::Left => pos.col - 1,
        Direction::Right => pos.col + 1,
    }
}

/// The full edge-transition table of the cube, as (side, row, col,
/// direction).  One step is taken from `pos` in `dir`; if the stepped cell
/// leaves the grid, the rule of the edge that was crossed remaps the cell
/// and possibly the direction onto the neighbouring face.  Exactly one of
/// the four edge conditions (row overflow, row underflow, column overflow,
/// column underflow) can hold, each judged on the post-step coordinates.
pub open spec fn next_position_spec(pos: CubePosition, dir: Direction, g: Grid) -> (
    CubeSideType,
    int,
    int,
    Direction,
) {
    let n = g.rows_count as int;
    let r = stepped_row(pos, dir);
    let c = stepped_col(pos, dir);
    if r >= n {
        match pos.side {
            CubeSideType::Front => (CubeSideType::Up, 0, c, dir),
            CubeSideType::Back => (CubeSideType::Up, n - 1, n - c - 1, Direction::Down),
            CubeSideType::Up => (CubeSideType::Back, n - 1, n - c - 1, Direction::Down),
            CubeSideType::Down => (CubeSideType::Front, 0, c, dir),
            CubeSideType::Left => (CubeSideType::Up, n - c - 1, 0, Direction::Right),
            CubeSideType::Right => (CubeSideType::Up, c, n - 1, Direction::Left),
        }
    } else if r < 0 {
        match pos.side {
            CubeSideType::Front => (CubeSideType::Down, n - 1, c, dir),
            CubeSideType::Back => (CubeSideType::Down, 0, n - c - 1, Direction::Up),
            CubeSideType::Up => (CubeSideType::Front, n - 1, c, dir),
            CubeSideType::Down => (CubeSideType::Back, 0, n - c - 1, Direction::Up),
            CubeSideType::Left => (CubeSideType::Down, c, 0, Direction::Right),
            CubeSideType::Right => (CubeSideType::Down, n - c - 1, n - 1, Direction::Left),
        }
    } else if c >= n {
        match pos.side {
            CubeSideType::Front => (CubeSideType::Right, r, 0, dir),
            CubeSideType::Back => (CubeSideType::Left, r, 0, dir),
            CubeSideType::Up => (CubeSideType::Right, n - 1, r, Direction::Down),
            CubeSideType::Down => (CubeSideType::Right, 0, n - r - 1, Direction::Up),
            CubeSideType::Left => (CubeSideType::Front, r, 0, dir),
            CubeSideType::Right => (CubeSideType::Back, r, 0, dir),
        }
    } else if c < 0 {
        match pos.side {
            CubeSideType::Front => (CubeSideType::Left, r, n - 1, dir),
            CubeSideType::Back => (CubeSideType::Right, r, n - 1, dir),
            CubeSideType::Up => (CubeSideType::Left, n - 1, n - r - 1, Direction::Down),
            CubeSideType::Down => (CubeSideType::Left, 0, r, Direction::Up),
            CubeSideType::Left => (CubeSideType::Back, r, n - 1, dir),
            CubeSideType::Right => (CubeSideType::Front, r, n - 1, dir),
        }
    } else {
        (pos.side, r, c, dir)
    }
}

/// Moves one cell from `pos` in `dir`, wrapping across cube edges.
///
/// The result is the cell and direction given by the edge-transition table;
/// it always lies inside the grid.
pub fn get_next_cube_position_and_direction(
    pos: &CubePosition,
    direction: Direction,
    grid: &Grid,
) -> (r: (CubePosition, Direction))
    requires
        crate::models::grid_wf(*grid),
        pos_in_bounds(*pos, *grid),
    ensures
        r.0.side == next_position_spec(*pos, direction, *grid).0,
        r.0.row == next_position_spec(*pos, direction, *grid).1,
        r.0.col == next_position_spec(*pos, direction, *grid).2,
        r.1 == next_position_spec(*pos, direction, *grid).3,
        pos_in_bounds(r.0, *grid),
{
    let mut next_pos = *pos;
    let mut next_direction = direction;

    match direction {
        Direction::Up => next_pos.row = next_pos.row + 1,
        Direction::Down => next_pos.row = next_pos.row - 1,
        Direction::Left => next_pos.col = next_pos.col - 1,
        Direction::Right => next_pos.col = next_pos.col + 1,
    }

    // falling off the up edge
    if next_pos.row >= grid.rows_count {
        match next_pos.side {
            CubeSideType::Front => {
                next_pos.side = CubeSideType::Up;
                next_pos.row = 0;
            },
            CubeSideType::Back => {
                next_pos.side = CubeSideType::Up;
                next_direction = Direction::Down;
                next_pos.col = grid.cols_count - next_pos.col - 1;
                next_pos.row = grid.rows_count - 1;
            },
            CubeSideType::Up => {
                next_pos.side = CubeSideType::Back;
                next_direction = Direction::Down;
                next_pos.col = grid.cols_count - next_pos.col - 1;
                next_pos.row = grid.rows_count - 1;
            },
            CubeSideType::Down => {
                next_pos.side = CubeSideType::Front;
                next_pos.row = 0;
            },
            CubeSideType::Left => {
                next_pos.side = CubeSideType::Up;
                next_direction = Direction::Right;
                next_pos.row = grid.rows_count - next_pos.col - 1;
                next_pos.col = 0;
            },
            CubeSideType::Right => {
                next_pos.side = CubeSideType::Up;
                next_direction = Direction::Left;
                next_pos.row = next_pos.col;
                next_pos.col = grid.cols_count - 1;
            },
        }
    }

    // falling off the down edge
    if next_pos.row < 0 {
        match next_pos.side {
            CubeSideType::Front => {
                next_pos.side = CubeSideType::Down;
                next_pos.row = grid.cols_count - 1;
            },
            CubeSideType::Back => {
                next_pos.side = CubeSideType::Down;
                next_direction = Direction::Up;
                next_pos.col = grid.cols_count - next_pos.col - 1;
                next_pos.row = 0;
            },
            CubeSideType::Up => {
                next_pos.side = CubeSideType::Front;
                next_pos.row = grid.rows_count - 1;
            },
            CubeSideType::Down => {
                next_pos.side = CubeSideType::Back;
                next_direction = Direction::Up;
                next_pos.col = grid.cols_count - next_pos.col - 1;
                next_pos.row = 0;
            },
            CubeSideType::Left => {
                next_pos.side = CubeSideType::Down;
                next_direction = Direction::Right;
                next_pos.row = next_pos.col;
                next_pos.col = 0;
            },
            CubeSideType::Right => {
                next_pos.side = CubeSideType::Down;
                next_direction = Direction::Left;
                next_pos.row = grid.rows_count - next_pos.col - 1;
                next_pos.col = grid.cols_count - 1;
            },
        }
    }

    // falling off the right edge
    if next_pos.col >= grid.cols_count {
        match next_pos.side {
            CubeSideType::Front => {
                next_pos.side = CubeSideType::Right;
                next_pos.col = 0;
            },
            CubeSideType::Back => {
                next_pos.side = CubeSideType::Left;
                next_pos.col = 0;
            },
            CubeSideType::Up => {
                next_pos.side = CubeSideType::Right;
                next_direction = Direction::Down;
                next_pos.col = next_pos.row;
                next_pos.row = grid.rows_count - 1;
            },
            CubeSideType::Down => {
                next_pos.side = CubeSideType::Right;
                next_direction = Direction::Up;
                next_pos.col = grid.rows_count - next_pos.row - 1;
                next_pos.row = 0;
            },
            CubeSideType::Left => {
                next_pos.side = CubeSideType::Front;
                next_pos.col = 0;
            },
            CubeSideType::Right => {
                next_pos.side = CubeSideType::Back;
                next_pos.col = 0;
            },
        }
    }

    // falling off the left edge
    if next_pos.col < 0 {
        match next_pos.side {
            CubeSideType::Front => {
                next_pos.side = CubeSideType::Left;
                next_pos.col = grid.cols_count - 1;
            },
            CubeSideType::Back => {
                next_pos.side = CubeSideType::Right;
                next_pos.col = grid.cols_count - 1;
            },
            CubeSideType::Up => {
                next_pos.side = CubeSideType::Left;
                next_direction = Direction::Down;
                next_pos.col = grid.cols_count - next_pos.row - 1;
                next_pos.row = grid.rows_count - 1;
            },
            CubeSideType::Down => {
                next_pos.side = CubeSideType::Left;
                next_direction = Direction::Up;
                next_pos.col = next_pos.row;
                next_pos.row = 0;
            },
            CubeSideType::Left => {
                next_pos.side = CubeSideType::Back;
                next_pos.col = grid.cols_count - 1;
            },
            CubeSideType::Right => {
                next_pos.side = CubeSideType::Front;
                next_pos.col = grid.cols_count - 1;
            },
        }
    }

    (next_pos, next_direction)
}

/// The fixed placement of one face on the cube: per axis, the bounds the
/// face spans, in half-units (1 stands for +0.5, -1 for -0.5).  Exactly two
/// axes vary across a face and one is constant; a reversed pair means the
/// axis runs against the grid's direction.
#[derive(Clone, Copy, PartialEq, Eq, Structural, Debug)]
pub struct CubeSideRangesByAxis {
    pub x: Span,
    pub y: Span,
    pub z: Span,
}

pub open spec fn cube_side_coords_range_spec(side: CubeSideType) -> CubeSideRangesByAxis {
    match side {
        CubeSideType::Front => CubeSideRangesByAxis {
            x: Span(-1i64, 1i64),
            y: Span(-1i64, 1i64),
            z: Span(1i64, 1i64),
        },
        CubeSideType::Back => CubeSideRangesByAxis {
            x: Span(1i64, -1i64),
            y: Span(-1i64, 1i64),
            z: Span(-1i64, -1i64),
        },
        CubeSideType::Left => CubeSideRangesByAxis {
            x: Span(-1i64, -1i64),
            y: Span(-1i64, 1i64),
            z: Span(-1i64, 1i64),
        },
        CubeSideType::Right => CubeSideRangesByAxis {
            x: Span(1i64, 1i64),
            y: Span(-1i64, 1i64),
            z: Span(1i64, -1i64),
        },
        CubeSideType::Up => CubeSideRangesByAxis {
            x: Span(-1i64, 1i64),
            y: Span(1i64, 1i64),
            z: Span(1i64, -1i64),
        },
        CubeSideType::Down => CubeSideRangesByAxis {
            x: Span(-1i64, 1i64),
            y: Span(-1i64, -1i64),
            z: Span(-1i64, 1i64),
        },
    }
}

/// The coordinate bounds of `side`, in half-units.
pub fn cube_side_coords_range(side: CubeSideType) -> (r: CubeSideRangesByAxis)
    ensures
        r == cube_side_coords_range_spec(side),
{
    match side {
        CubeSideType::Front => CubeSideRangesByAxis {
            x: Span(-1, 1),
            y: Span(-1, 1),
            z: Span(1, 1),
        },
        CubeSideType::Back => CubeSideRangesByAxis {
            x: Span(1, -1),
            y: Span(-1, 1),
            z: Span(-1, -1),
        },
        CubeSideType::Left => CubeSideRangesByAxis {
            x: Span(-1, -1),
            y: Span(-1, 1),
            z: Span(-1, 1),
        },
        CubeSideType::Right => CubeSideRangesByAxis {
            x: Span(1, 1),
            y: Span(-1, 1),
            z: Span(1, -1),
        },
        CubeSideType::Up => CubeSideRangesByAxis {
            x: Span(-1, 1),
            y: Span(1, 1),
            z: Span(1, -1),
        },
        CubeSideType::Down => CubeSideRangesByAxis {
            x: Span(-1, 1),
            y: Span(-1, -1),
            z: Span(-1, 1),
        },
    }
}

/// Where an axis with bounds `range` (in half-units) lands for the centre
/// of the cell with index `coord`, in units of 1/(2 n) of the cube's edge:
/// the linear interpolation lo + (hi - lo) * (coord + 0.5) / n, scaled by
/// 2 n.  For a constant axis (lo == hi) this is the constant itself.
pub open spec fn axis_point_spec(range: Span, n: int, coord: int) -> int {
    range.0 * n + ((range.1 - range.0) / 2) * (2 * coord + 1)
}

/// The projection of a grid cell to a point on the cube's surface, scaled
/// by 2 * rows_count: (x, y, z) here stands for the unit-cube point
/// (x, y, z) / (2 * rows_count).  Per face, the horizontal grid axis feeds
/// one varying coordinate, the vertical grid axis the other, and the third
/// coordinate is the face's constant.
pub open spec fn position_3d_spec(pos: CubePosition, g: Grid) -> (int, int, int) {
    let n = g.rows_count as int;
    let ranges = cube_side_coords_range_spec(pos.side);
    match pos.side {
        CubeSideType::Front | CubeSideType::Back => (
            axis_point_spec(ranges.x, n, pos.col as int),
            axis_point_spec(ranges.y, n, pos.row as int),
            ranges.z.0 * n,
        ),
        CubeSideType::Left | CubeSideType::Right => (
            ranges.x.0 * n,
            axis_point_spec(ranges.y, n, pos.row as int),
            axis_point_spec(ranges.z, n, pos.col as int),
        ),
        CubeSideType::Up | CubeSideType::Down => (
            axis_point_spec(ranges.x, n, pos.col as int),
            ranges.y.0 * n,
            axis_point_spec(ranges.z, n, pos.row as int),
        ),
    }
}

/// Interpolates one axis for the centre of the cell with index `coord`,
/// given bounds in half-units.
fn axis_point(range: Span, n: i64, coord: i64) -> (r: i64)
    requires
        range.0 == 1 || range.0 == -1,
        range.1 == 1 || range.1 == -1,
        0 < n <= 0x8000_0000,
        0 <= coord < n,
    ensures
        r == axis_point_spec(range, n as int, coord as int),
{
    let half: i64 = if range.1 > range.0 {
        1
    } else if range.1 < range.0 {
        -1
    } else {
        0
    };
    proof {
        assert(half == (range.1 - range.0) / 2);
    }
    range.0 * n + half * (2 * coord + 1)
}

/// Projects a grid cell to the 3D point of its centre on the cube surface,
/// scaled by 2 * rows_count (see `position_3d_spec`).
pub fn get_position_3d_for_cube_position(pos: &CubePosition, grid: &Grid) -> (r: Point3D)
    requires
        crate::models::grid_wf(*grid),
        pos_in_bounds(*pos, *grid),
    ensures
        r.x == position_3d_spec(*pos, *grid).0,
        r.y == position_3d_spec(*pos, *grid).1,
        r.z == position_3d_spec(*pos, *grid).2,
{
    let n = grid.rows_count as i64;
    let vert: i64 = pos.row as i64;
    let horiz: i64 = pos.col as i64;

    let ranges = cube_side_coords_range(pos.side);

    match pos.side {
        CubeSideType::Front | CubeSideType::Back => Point3D {
            x: axis_point(ranges.x, n, horiz),
            y: axis_point(ranges.y, n, vert),
            z: ranges.z.0 * n,
        },
        CubeSideType::Left | CubeSideType::Right => Point3D {
            x: ranges.x.0 * n,
            y: axis_point(ranges.y, n, vert),
            z: axis_point(ranges.z, n, horiz),
        },
        CubeSideType::Up | CubeSideType::Down => Point3D {
            x: axis_point(ranges.x, n, horiz),
            y: ranges.y.0 * n,
            z: axis_point(ranges.z, n, vert),
        },
    }
}

} // verus!

