use chessboard::drag::DragTracker;
use chessboard::grid::{cell_to_world, world_to_cell};

#[test]
fn press_edges_over_a_drag() {
    let mut t = DragTracker::new();
    assert!(!t.pressed && !t.just_pressed && !t.just_released);
    assert_eq!(t.grid_position, None);

    // Button down for three consecutive frames, each with a cursor on the
    // board.
    let frames = [(-180, -180), (-100, 40), (180, 180)];
    for (i, &(wx, wy)) in frames.iter().enumerate() {
        let mv = t.update(true, Some((wx, wy)));
        assert!(t.pressed);
        assert_eq!(t.just_pressed, i == 0, "just pressed only on frame 1");
        assert!(!t.just_released);
        let expected = world_to_cell(wx, wy);
        assert_eq!(t.grid_position, expected);
        let mv = mv.expect("cursor on board while held");
        assert_eq!(Some(mv.cell), expected);
        assert_eq!(mv.world, cell_to_world(mv.cell.0, mv.cell.1));
    }

    // Button up: one frame of "just released", then silence.
    let mv = t.update(false, None);
    assert!(mv.is_none());
    assert!(!t.pressed && !t.just_pressed && t.just_released);
    let mv = t.update(false, None);
    assert!(mv.is_none());
    assert!(!t.pressed && !t.just_pressed && !t.just_released);

    // The last dragged cell persists after release.
    assert_eq!(t.grid_position, world_to_cell(180, 180));
}

#[test]
fn missing_cursor_keeps_last_cell() {
    let mut t = DragTracker::new();
    let mv = t.update(true, Some((0, 0)));
    assert!(mv.is_some());
    assert_eq!(t.grid_position, Some((3, 3)));

    // Cursor outside the window: no move, position persists.
    let mv = t.update(true, None);
    assert!(mv.is_none());
    assert!(t.pressed && !t.just_pressed);
    assert_eq!(t.grid_position, Some((3, 3)));

    // Cursor off the board: likewise.
    let mv = t.update(true, Some((10_000, 0)));
    assert!(mv.is_none());
    assert_eq!(t.grid_position, Some((3, 3)));
}

#[test]
fn press_with_no_cursor_still_marks_edge() {
    let mut t = DragTracker::new();
    let mv = t.update(true, None);
    assert!(mv.is_none());
    assert!(t.pressed && t.just_pressed && !t.just_released);
    assert_eq!(t.grid_position, None);
}
