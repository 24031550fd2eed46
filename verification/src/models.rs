//! Basic value types shared by the whole game: faces, grid cells, directions
//! and camera state.

use std::collections::VecDeque;
use vstd::prelude::*;

verus! {

/// One of the six grid-bearing faces of the cube.
#[derive(Clone, Copy, PartialEq, Eq, Structural, Hash, Debug)]
pub enum CubeSideType {
    Front,
    Back,
    Up,
    Down,
    Left,
    Right,
}

/// A fixed ordinal for each face, used to index per-face tables.
pub open spec fn side_index_spec(side: CubeSideType) -> int {
    match side {
        CubeSideType::Front => 0,
        CubeSideType::Back => 1,
        CubeSideType::Up => 2,
        CubeSideType::Down => 3,
        CubeSideType::Left => 4,
        CubeSideType::Right => 5,
    }
}

pub fn side_index(side: CubeSideType) -> (r: usize)
    ensures
        r == side_index_spec(side),
{
    match side {
        CubeSideType::Front => 0,
        CubeSideType::Back => 1,
        CubeSideType::Up => 2,
        CubeSideType::Down => 3,
        CubeSideType::Left => 4,
        CubeSideType::Right => 5,
    }
}

/// A movement direction, relative to a face's local grid axes.
#[derive(Clone, Copy, PartialEq, Eq, Structural, Hash, Debug)]
pub enum Direction {
    Up,
    Down,
    Left,
    Right,
}

pub open spec fn opposite_direction_spec(d: Direction) -> Direction {
    match d {
        Direction::Up => Direction::Down,
        Direction::Down => Direction::Up,
        Direction::Left => Direction::Right,
        Direction::Right => Direction::Left,
    }
}

pub fn get_opposite_direction(d: Direction) -> (r: Direction)
    ensures
        r == opposite_direction_spec(d),
{
    match d {
        Direction::Up => Direction::Down,
        Direction::Down => Direction::Up,
        Direction::Left => Direction::Right,
        Direction::Right => Direction::Left,
    }
}

/// Taking the opposite direction twice gives the direction back: the
/// opposite is a total involution.
pub proof fn lemma_opposite_direction_involution(d: Direction)
    ensures
        opposite_direction_spec(opposite_direction_spec(d)) == d,
{
}

/// The shared row/column extents of every face.
#[derive(Clone, Copy, PartialEq, Eq, Structural, Debug)]
pub struct Grid {
    pub rows_count: i32,
    pub cols_count: i32,
}

/// The grid must be square (the cross-axis remaps of the cube topology
/// exchange rows and columns) and non-empty.
pub open spec fn grid_wf(g: Grid) -> bool {
    &&& 0 < g.rows_count
    &&& g.rows_count == g.cols_count
}

/// A cell address: a face together with a row and a column on it.
#[derive(Clone, Copy, PartialEq, Eq, Structural, Hash, Debug)]
pub struct CubePosition {
    pub side: CubeSideType,
    pub row: i32,
    pub col: i32,
}

pub open spec fn pos_in_bounds(p: CubePosition, g: Grid) -> bool {
    &&& 0 <= p.row < g.rows_count
    &&& 0 <= p.col < g.cols_count
}

/// A camera rotation: angles around the x and y axes, in hundredths of a
/// degree.
#[derive(Clone, Copy, PartialEq, Eq, Structural, Debug)]
pub struct ModelRotation {
    pub x: i64,
    pub y: i64,
}

/// An angle in hundredths of a degree, normalized to (-180, 180] degrees.
pub open spec fn cdeg_normalized(a: i64) -> bool {
    -18000 < a <= 18000
}

pub open spec fn rotation_normalized(r: ModelRotation) -> bool {
    cdeg_normalized(r.x) && cdeg_normalized(r.y)
}

/// A point on the surface of the cube.  The components are scaled by twice
/// the grid size: a point (x, y, z) here stands for the unit-cube point
/// (x, y, z) / (2 * rows_count), whose coordinates lie in [-0.5, 0.5].
/// The scaling makes the projection of a cell centre exact.
#[derive(Clone, Copy, PartialEq, Eq, Structural, Debug)]
pub struct Point3D {
    pub x: i64,
    pub y: i64,
    pub z: i64,
}

/// A screen position in whole pixels.
#[derive(Clone, Copy, PartialEq, Eq, Structural, Debug)]
pub struct Point2D {
    pub x: i64,
    pub y: i64,
}

/// What drives the camera each tick.
#[derive(Clone, Copy, PartialEq, Eq, Structural, Debug)]
pub enum CameraMode {
    Overview,
    FollowSnake,
    ManualControl,
}

/// The overall state of a round.
#[derive(Clone, Copy, PartialEq, Eq, Structural, Debug)]
pub enum GameStatus {
    Welcome,
    InGame,
    Paused,
    Win,
    Fail,
}

/// Rows (and columns) of every face of the default cube.
pub const GRID_SIZE: i32 = 16;

/// Milliseconds between snake moves at the start of a round.
pub const INITIAL_MOVE_PERIOD_MS: u64 = 150;

/// The snake: its cells (front of the queue is the head), its current
/// direction, when it last moved, how long it waits between moves, and
/// whether it has crashed.
pub struct Snake {
    pub parts: VecDeque<CubePosition>,
    pub direction: Direction,
    /// Timestamp of the last move, in milliseconds, as handed to
    /// `move_snake_loop` by the caller's clock.
    pub last_move_time: Option<u64>,
    /// Milliseconds between moves; shrinks as apples are eaten.
    pub move_period: u64,
    pub is_crashed: bool,
}

/// The fixed cell where each round's snake starts.
pub open spec fn snake_start_position() -> CubePosition {
    CubePosition { side: CubeSideType::Front, row: 0, col: 0 }
}

/// A freshly planted snake: one cell at the start position, heading right,
/// at the initial pace, not crashed.
pub open spec fn snake_default_spec(s: Snake) -> bool {
    &&& s.parts@ =~= seq![snake_start_position()]
    &&& s.direction == Direction::Right
    &&& s.last_move_time is None
    &&& s.move_period == INITIAL_MOVE_PERIOD_MS
    &&& !s.is_crashed
}

impl Default for Snake {
    fn default() -> (s: Snake)
        ensures
            snake_default_spec(s),
    {
        let mut parts: VecDeque<CubePosition> = VecDeque::new();
        parts.push_back(CubePosition { side: CubeSideType::Front, row: 0, col: 0 });
        Snake {
            parts,
            direction: Direction::Right,
            last_move_time: None,
            move_period: INITIAL_MOVE_PERIOD_MS,
            is_crashed: false,
        }
    }
}

/// Every position of the sequence lies on the grid.
pub open spec fn positions_in_bounds(ps: Seq<CubePosition>, g: Grid) -> bool {
    forall|i: int| 0 <= i < ps.len() ==> pos_in_bounds(#[trigger] ps[i], g)
}

/// The snake always has at least one cell, and every cell is on the grid.
pub open spec fn snake_wf(s: Snake, g: Grid) -> bool {
    &&& s.parts@.len() >= 1
    &&& positions_in_bounds(s.parts@, g)
}

/// Which faces must be redrawn by the renderer.  The simulation only raises
/// these flags; the renderer clears a flag once the face is drawn.
#[derive(Clone, Copy, PartialEq, Eq, Structural, Debug)]
pub struct SideRedrawFlags {
    pub front: bool,
    pub back: bool,
    pub up: bool,
    pub down: bool,
    pub left: bool,
    pub right: bool,
}

impl SideRedrawFlags {
    pub open spec fn flag(self, side: CubeSideType) -> bool {
        match side {
            CubeSideType::Front => self.front,
            CubeSideType::Back => self.back,
            CubeSideType::Up => self.up,
            CubeSideType::Down => self.down,
            CubeSideType::Left => self.left,
            CubeSideType::Right => self.right,
        }
    }

    pub open spec fn all_set(self) -> bool {
        forall|s: CubeSideType| self.flag(s)
    }

    /// Raises the flag of one face, leaving the others alone.
    pub fn set(&mut self, side: CubeSideType)
        ensures
            forall|s: CubeSideType| final(self).flag(s) == (old(self).flag(s) || s == side),
    {
        match side {
            CubeSideType::Front => self.front = true,
            CubeSideType::Back => self.back = true,
            CubeSideType::Up => self.up = true,
            CubeSideType::Down => self.down = true,
            CubeSideType::Left => self.left = true,
            CubeSideType::Right => self.right = true,
        }
    }

    /// Raises the flags of all six faces.
    pub fn set_all(&mut self)
        ensures
            final(self).all_set(),
    {
        self.front = true;
        self.back = true;
        self.up = true;
        self.down = true;
        self.left = true;
        self.right = true;
    }
}

impl Default for SideRedrawFlags {
    fn default() -> (r: SideRedrawFlags)
        ensures
            r.all_set(),
    {
        SideRedrawFlags { front: true, back: true, up: true, down: true, left: true, right: true }
    }
}

/// The cube as the camera and renderer see it: the grid, the camera
/// rotation state, the drag state and the redraw flags.
pub struct Cube {
    pub current_rotation: ModelRotation,
    pub target_rotation: ModelRotation,
    pub camera_mode: CameraMode,
    pub mouse_is_dragging: bool,
    pub mouse_pos: Option<Point2D>,
    pub needs_redraw: bool,
    pub grid: Grid,
    pub sides: SideRedrawFlags,
}

/// Screen coordinates small enough that drag arithmetic cannot overflow
/// (far beyond any real display).
pub open spec fn point2d_small(p: Point2D) -> bool {
    &&& -0x8000_0000 <= p.x <= 0x8000_0000
    &&& -0x8000_0000 <= p.y <= 0x8000_0000
}

/// The grid is square, both rotations are kept normalized, and any
/// remembered drag position is a plausible screen coordinate.
pub open spec fn cube_wf(c: Cube) -> bool {
    &&& grid_wf(c.grid)
    &&& rotation_normalized(c.current_rotation)
    &&& rotation_normalized(c.target_rotation)
    &&& (c.mouse_pos matches Some(p) ==> point2d_small(p))
}

pub open spec fn cube_default_spec(c: Cube) -> bool {
    &&& c.current_rotation == (ModelRotation { x: 0i64, y: 0i64 })
    &&& c.target_rotation == (ModelRotation { x: 0i64, y: 0i64 })
    &&& c.camera_mode == CameraMode::Overview
    &&& !c.mouse_is_dragging
    &&& c.mouse_pos is None
    &&& c.needs_redraw
    &&& c.grid == (Grid { rows_count: GRID_SIZE, cols_count: GRID_SIZE })
    &&& c.sides.all_set()
}

impl Default for Cube {
    fn default() -> (c: Cube)
        ensures
            cube_default_spec(c),
            cube_wf(c),
    {
        Cube {
            current_rotation: ModelRotation { x: 0, y: 0 },
            target_rotation: ModelRotation { x: 0, y: 0 },
            camera_mode: CameraMode::Overview,
            mouse_is_dragging: false,
            mouse_pos: None,
            needs_redraw: true,
            grid: Grid { rows_count: GRID_SIZE, cols_count: GRID_SIZE },
            sides: SideRedrawFlags::default(),
        }
    }
}

/// Everything the game mutates: the cube and camera, the snake, the
/// remaining apples, the stones and the round status.
pub struct GameState {
    pub cube: Cube,
    pub snake: Snake,
    pub apples: Vec<CubePosition>,
    pub stones: Vec<CubePosition>,
    pub status: GameStatus,
}

/// The invariant every library function preserves: a well-formed cube, a
/// well-formed snake, and apples and stones on the grid.
pub open spec fn state_wf(st: GameState) -> bool {
    &&& cube_wf(st.cube)
    &&& snake_wf(st.snake, st.cube.grid)
    &&& positions_in_bounds(st.apples@, st.cube.grid)
    &&& positions_in_bounds(st.stones@, st.cube.grid)
}

impl Default for GameState {
    fn default() -> (st: GameState)
        ensures
            cube_default_spec(st.cube),
            snake_default_spec(st.snake),
            st.apples@ =~= Seq::<CubePosition>::empty(),
            st.stones@ =~= Seq::<CubePosition>::empty(),
            st.status == GameStatus::Welcome,
            state_wf(st),
    {
        GameState {
            cube: Cube::default(),
            snake: Snake::default(),
            apples: Vec::new(),
            stones: Vec::new(),
            status: GameStatus::Welcome,
        }
    }
}

} // verus!
