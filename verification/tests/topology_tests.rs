use snake_3d::cube::{
    cube_side_coords_range, get_next_cube_position_and_direction,
    get_position_3d_for_cube_position,
};
use snake_3d::models::{
    get_opposite_direction, side_index, CubePosition, CubeSideType, Direction, Grid, Point3D,
};

fn grid16() -> Grid {
    Grid { rows_count: 16, cols_count: 16 }
}

fn pos(side: CubeSideType, row: i32, col: i32) -> CubePosition {
    CubePosition { side, row, col }
}

#[test]
fn front_top_edge_to_up() {
    let (p, d) = get_next_cube_position_and_direction(
        &pos(CubeSideType::Front, 15, 5),
        Direction::Up,
        &grid16(),
    );
    assert_eq!(p, pos(CubeSideType::Up, 0, 5));
    assert_eq!(d, Direction::Up);
}

#[test]
fn back_top_edge_to_up() {
    let (p, d) = get_next_cube_position_and_direction(
        &pos(CubeSideType::Back, 15, 5),
        Direction::Up,
        &grid16(),
    );
    assert_eq!(p, pos(CubeSideType::Up, 15, 10));
    assert_eq!(d, Direction::Down);
}

#[test]
fn up_bottom_edge_to_front() {
    let (p, d) = get_next_cube_position_and_direction(
        &pos(CubeSideType::Up, 0, 5),
        Direction::Down,
        &grid16(),
    );
    assert_eq!(p, pos(CubeSideType::Front, 15, 5));
    assert_eq!(d, Direction::Down);
}

#[test]
fn interior_moves_keep_side_and_direction() {
    let (p, d) = get_next_cube_position_and_direction(
        &pos(CubeSideType::Left, 7, 7),
        Direction::Right,
        &grid16(),
    );
    assert_eq!(p, pos(CubeSideType::Left, 7, 8));
    assert_eq!(d, Direction::Right);
}

#[test]
fn every_move_stays_on_grid() {
    let g = grid16();
    let sides = [
        CubeSideType::Front,
        CubeSideType::Back,
        CubeSideType::Up,
        CubeSideType::Down,
        CubeSideType::Left,
        CubeSideType::Right,
    ];
    let dirs = [Direction::Up, Direction::Down, Direction::Left, Direction::Right];
    for side in sides {
        for row in 0..16 {
            for col in 0..16 {
                for dir in dirs {
                    let (p, _) =
                        get_next_cube_position_and_direction(&pos(side, row, col), dir, &g);
                    assert!(0 <= p.row && p.row < 16);
                    assert!(0 <= p.col && p.col < 16);
                }
            }
        }
    }
}

#[test]
fn opposite_direction_is_involution() {
    for d in [Direction::Up, Direction::Down, Direction::Left, Direction::Right] {
        let o = get_opposite_direction(d);
        assert_ne!(o, d);
        assert_eq!(get_opposite_direction(o), d);
    }
}

#[test]
fn side_indices_are_distinct() {
    let sides = [
        CubeSideType::Front,
        CubeSideType::Back,
        CubeSideType::Up,
        CubeSideType::Down,
        CubeSideType::Left,
        CubeSideType::Right,
    ];
    for (i, s) in sides.iter().enumerate() {
        assert_eq!(side_index(*s), i);
    }
}

#[test]
fn projection_of_front_origin_cell() {
    // cell (0,0) on the front face: its centre is at (-15/32, -15/32, 1/2)
    // of the unit cube, i.e. (-15, -15, 16) scaled by 2*16
    let p = get_position_3d_for_cube_position(&pos(CubeSideType::Front, 0, 0), &grid16());
    assert_eq!(p, Point3D { x: -15, y: -15, z: 16 });
}

#[test]
fn projection_respects_reversed_ranges() {
    // the back face runs x from +0.5 down to -0.5, so column 5 lands at
    // 0.5 - 11/32 = 5/32
    let p = get_position_3d_for_cube_position(&pos(CubeSideType::Back, 15, 5), &grid16());
    assert_eq!(p, Point3D { x: 5, y: 15, z: -16 });
}

#[test]
fn coords_range_table_axes() {
    // two axes vary per face and one is constant
    let front = cube_side_coords_range(CubeSideType::Front);
    assert_ne!(front.x.0, front.x.1);
    assert_ne!(front.y.0, front.y.1);
    assert_eq!(front.z.0, front.z.1);
    let left = cube_side_coords_range(CubeSideType::Left);
    assert_eq!(left.x.0, left.x.1);
    assert_ne!(left.y.0, left.y.1);
    assert_ne!(left.z.0, left.z.1);
    let up = cube_side_coords_range(CubeSideType::Up);
    assert_ne!(up.x.0, up.x.1);
    assert_eq!(up.y.0, up.y.1);
    assert_ne!(up.z.0, up.z.1);
}
