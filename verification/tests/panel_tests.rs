use hexview::panel::{CursorMove, CursorMovement, Panel};
use hexview::stuff::{Position, Size};

fn panel() -> Panel {
    Panel::new(Position { x: 11, y: 2 }, Size { width: 16, height: 10 })
}

#[test]
fn new_panel_has_cursor_at_origin() {
    let p = panel();
    assert_eq!(*p.cursor(), Position { x: 0, y: 0 });
    assert_eq!(*p.position(), Position { x: 11, y: 2 });
    assert_eq!(*p.size(), Size { width: 16, height: 10 });
}

#[test]
fn bounds_are_the_corner_and_the_cell_past_the_far_corner() {
    let p = panel();
    assert_eq!(p.bounds(), (Position { x: 11, y: 2 }, Position { x: 27, y: 12 }));
}

#[test]
fn steps_out_of_the_top_left_corner_are_blocked() {
    let mut p = panel();
    assert_eq!(p.move_cursor(CursorMovement::Left), CursorMove::Blocked);
    assert_eq!(p.move_cursor(CursorMovement::Up), CursorMove::Blocked);
    assert_eq!(*p.cursor(), Position { x: 0, y: 0 });
}

#[test]
fn steps_inside_the_panel_move_by_one() {
    let mut p = panel();
    assert_eq!(p.move_cursor(CursorMovement::Right), CursorMove::Moved);
    assert_eq!(p.move_cursor(CursorMovement::Right), CursorMove::Moved);
    assert_eq!(p.move_cursor(CursorMovement::Down), CursorMove::Moved);
    assert_eq!(*p.cursor(), Position { x: 2, y: 1 });
    assert_eq!(p.move_cursor(CursorMovement::Left), CursorMove::Moved);
    assert_eq!(p.move_cursor(CursorMovement::Up), CursorMove::Moved);
    assert_eq!(*p.cursor(), Position { x: 1, y: 0 });
}

#[test]
fn steps_out_of_the_bottom_right_corner_are_blocked() {
    let mut p = panel();
    assert_eq!(p.move_cursor(CursorMovement::RightMost), CursorMove::Moved);
    assert_eq!(p.move_cursor(CursorMovement::Bottom), CursorMove::Moved);
    assert_eq!(*p.cursor(), Position { x: 15, y: 9 });
    assert_eq!(p.move_cursor(CursorMovement::Right), CursorMove::Blocked);
    assert_eq!(p.move_cursor(CursorMovement::Down), CursorMove::Blocked);
    assert_eq!(*p.cursor(), Position { x: 15, y: 9 });
}

#[test]
fn jumps_to_an_edge_always_move() {
    let mut p = panel();
    assert_eq!(p.move_cursor(CursorMovement::LeftMost), CursorMove::Moved);
    assert_eq!(p.move_cursor(CursorMovement::Top), CursorMove::Moved);
    assert_eq!(*p.cursor(), Position { x: 0, y: 0 });
    assert_eq!(p.move_cursor(CursorMovement::RightMost), CursorMove::Moved);
    assert_eq!(*p.cursor(), Position { x: 15, y: 0 });
    assert_eq!(p.move_cursor(CursorMovement::Bottom), CursorMove::Moved);
    assert_eq!(*p.cursor(), Position { x: 15, y: 9 });
    assert_eq!(p.move_cursor(CursorMovement::LeftMost), CursorMove::Moved);
    assert_eq!(*p.cursor(), Position { x: 0, y: 9 });
    assert_eq!(p.move_cursor(CursorMovement::Top), CursorMove::Moved);
    assert_eq!(*p.cursor(), Position { x: 0, y: 0 });
}

#[test]
fn the_four_steps_meet_every_edge() {
    let mut p = Panel::new(Position { x: 0, y: 0 }, Size { width: 2, height: 2 });
    assert_eq!(p.move_left(), CursorMove::Blocked);
    assert_eq!(p.move_up(), CursorMove::Blocked);
    assert_eq!(p.move_right(), CursorMove::Moved);
    assert_eq!(p.move_right(), CursorMove::Blocked);
    assert_eq!(p.move_down(), CursorMove::Moved);
    assert_eq!(p.move_down(), CursorMove::Blocked);
    assert_eq!(*p.cursor(), Position { x: 1, y: 1 });
    assert_eq!(p.move_left(), CursorMove::Moved);
    assert_eq!(p.move_up(), CursorMove::Moved);
    assert_eq!(*p.cursor(), Position { x: 0, y: 0 });
}

#[test]
fn a_panel_of_one_cell_blocks_every_step() {
    let mut p = Panel::new(Position { x: 0, y: 0 }, Size { width: 1, height: 1 });
    assert_eq!(p.move_cursor(CursorMovement::Left), CursorMove::Blocked);
    assert_eq!(p.move_cursor(CursorMovement::Right), CursorMove::Blocked);
    assert_eq!(p.move_cursor(CursorMovement::Up), CursorMove::Blocked);
    assert_eq!(p.move_cursor(CursorMovement::Down), CursorMove::Blocked);
    assert_eq!(p.move_cursor(CursorMovement::RightMost), CursorMove::Moved);
    assert_eq!(p.move_cursor(CursorMovement::Bottom), CursorMove::Moved);
    assert_eq!(*p.cursor(), Position { x: 0, y: 0 });
}

#[test]
fn direct_positioning_takes_cells_of_the_panel_only() {
    let mut p = panel();
    assert_eq!(p.set_column(15), CursorMove::Moved);
    assert_eq!(p.set_row(9), CursorMove::Moved);
    assert_eq!(*p.cursor(), Position { x: 15, y: 9 });
    assert_eq!(p.set_column(16), CursorMove::Blocked);
    assert_eq!(p.set_row(10), CursorMove::Blocked);
    assert_eq!(*p.cursor(), Position { x: 15, y: 9 });
    assert_eq!(p.set_column(0), CursorMove::Moved);
    assert_eq!(*p.cursor(), Position { x: 0, y: 9 });
}
