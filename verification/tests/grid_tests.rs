use chessboard::grid::{board_squares, cell_to_world, is_dark_square, world_to_cell};

#[test]
fn round_trip_all_cells() {
    for x in 0u8..6 {
        for y in 0u8..6 {
            let (wx, wy) = cell_to_world(x, y);
            assert_eq!(world_to_cell(wx, wy), Some((x, y)));
        }
    }
}

#[test]
fn board_is_centered() {
    let (x0, y0) = cell_to_world(0, 0);
    let (x5, y5) = cell_to_world(5, 5);
    assert_eq!((x0, y0), (-180, -180));
    assert_eq!((x5, y5), (180, 180));
    assert_eq!(x0, -x5);
    assert_eq!(y0, -y5);
}

#[test]
fn mapper_is_pure() {
    assert_eq!(cell_to_world(2, 3), cell_to_world(2, 3));
    assert_eq!(world_to_cell(-37, 101), world_to_cell(-37, 101));
}

#[test]
fn cell_centers() {
    assert_eq!(cell_to_world(2, 3), (-36, 36));
    assert_eq!(cell_to_world(5, 0), (180, -180));
}

#[test]
fn off_board_points_are_rejected() {
    assert_eq!(world_to_cell(-217, 0), None);
    assert_eq!(world_to_cell(0, -217), None);
    assert_eq!(world_to_cell(216, 0), None);
    assert_eq!(world_to_cell(0, 216), None);
    assert_eq!(world_to_cell(i32::MIN, i32::MIN), None);
    assert_eq!(world_to_cell(i32::MAX, i32::MAX), None);
}

#[test]
fn edge_points_snap_to_border_cells() {
    assert_eq!(world_to_cell(-216, -216), Some((0, 0)));
    assert_eq!(world_to_cell(215, 215), Some((5, 5)));
    assert_eq!(world_to_cell(0, 0), Some((3, 3)));
    assert_eq!(world_to_cell(-145, -144), Some((0, 1)));
}

#[test]
fn checkerboard_parity() {
    for i in 0u8..6 {
        for j in 0u8..6 {
            assert_eq!(is_dark_square(i, j), i % 2 == j % 2);
        }
    }
    assert!(is_dark_square(0, 0));
    assert!(!is_dark_square(0, 1));
    assert!(is_dark_square(1, 1));
    assert!(is_dark_square(4, 2));
}

#[test]
fn board_layout_lists_every_square() {
    let squares = board_squares();
    assert_eq!(squares.len(), 36);
    for (k, s) in squares.iter().enumerate() {
        assert_eq!(s.x as usize, k / 6);
        assert_eq!(s.y as usize, k % 6);
        let (wx, wy) = cell_to_world(s.x, s.y);
        assert_eq!((s.world_x, s.world_y), (wx, wy));
        assert_eq!(s.dark, s.x % 2 == s.y % 2);
    }
}
