use hexview::editor::{
    Action, ActivePanel, Editor, EditorError, Options, PanelMovement, Step,
};
use hexview::file::{CursorDirection, CursorError};
use hexview::stuff::Position;

fn data(len: usize) -> Vec<u8> {
    (0..len).map(|i| (i % 251) as u8).collect()
}

fn editor() -> Editor {
    Editor::new(Options { bytes_per_group: 8, groups_per_row: 2 }).unwrap()
}

/// Does what a step asks of the reader of the file.
fn serve(editor: &mut Editor, step: Step, file: &[u8]) {
    if let Step::Read { offset, len } = step {
        let from = offset as usize;
        editor.fill(Ok(file[from..from + len].to_vec())).unwrap();
    }
}

fn open(file: &[u8]) -> Editor {
    let mut e = editor();
    e.open_file(file.len() as u64);
    let (offset, len) = e.pending_read().unwrap();
    e.fill(Ok(file[offset as usize..offset as usize + len].to_vec())).unwrap();
    e
}

#[test]
fn default_options_are_zero_and_refused() {
    let o = Options::default();
    assert_eq!(o, Options { bytes_per_group: 0, groups_per_row: 0 });
    assert!(matches!(Editor::new(o), Err(EditorError::InvalidConfiguration)));
    assert!(matches!(
        Editor::new(Options { bytes_per_group: 8, groups_per_row: 0 }),
        Err(EditorError::InvalidConfiguration)
    ));
    assert!(matches!(
        Editor::new(Options { bytes_per_group: 0, groups_per_row: 2 }),
        Err(EditorError::InvalidConfiguration)
    ));
}

#[test]
fn a_new_session_is_in_the_character_panel_at_the_first_byte() {
    let e = editor();
    assert_eq!(e.active(), ActivePanel::Ascii);
    assert_eq!(*e.active_panel().cursor(), Position { x: 0, y: 0 });
    assert_eq!(e.cursor(), Position { x: 61, y: 2 });
    assert!(e.file().is_none());
    assert_eq!(e.pending_read(), None);
    assert_eq!(e.geometry().bytes_per_row(), 16);
    assert_eq!(e.geometry().window_bytes(), 160);
    assert_eq!(e.geometry().rows(), 10);
}

#[test]
fn opening_a_file_asks_for_the_first_window() {
    let mut e = editor();
    e.open_file(200);
    assert_eq!(e.pending_read(), Some((0, 160)));
    let file = data(200);
    e.fill(Ok(file[0..160].to_vec())).unwrap();
    assert_eq!(e.pending_read(), None);
    assert_eq!(e.file().unwrap().buffer(), &file[0..160]);
    assert_eq!(e.file().unwrap().position(), 0);
}

#[test]
fn left_from_the_first_column_leads_to_the_right_edge_of_the_hex_panel() {
    let mut e = editor();
    assert_eq!(e.handle(Action::Left), Step::Redraw);
    assert_eq!(e.active(), ActivePanel::Hex);
    assert_eq!(*e.active_panel().cursor(), Position { x: 15, y: 0 });
    assert_eq!(e.cursor(), Position { x: 57, y: 2 });
}

#[test]
fn right_from_the_last_column_leads_to_the_left_edge_of_the_other_panel() {
    let mut e = editor();
    for column in 1..16 {
        e.handle(Action::Right);
        assert_eq!(e.active(), ActivePanel::Ascii);
        assert_eq!(*e.active_panel().cursor(), Position { x: column, y: 0 });
    }
    e.handle(Action::Right);
    assert_eq!(e.active(), ActivePanel::Hex);
    assert_eq!(*e.active_panel().cursor(), Position { x: 0, y: 0 });
    assert_eq!(e.cursor(), Position { x: 11, y: 2 });
}

#[test]
fn a_switch_keeps_the_byte() {
    let mut e = editor();
    for _ in 0..15 {
        e.handle(Action::Right);
    }
    e.handle(Action::Down);
    e.handle(Action::Down);
    assert_eq!(e.handle(Action::SwitchPanel), Step::Redraw);
    assert_eq!(e.active(), ActivePanel::Hex);
    assert_eq!(*e.active_panel().cursor(), Position { x: 15, y: 2 });
    assert_eq!(e.cursor(), Position { x: 57, y: 4 });
    e.handle(Action::Left);
    e.handle(Action::SwitchPanel);
    assert_eq!(e.active(), ActivePanel::Ascii);
    assert_eq!(*e.active_panel().cursor(), Position { x: 14, y: 2 });
    assert_eq!(e.cursor(), Position { x: 75, y: 4 });
}

#[test]
fn a_switch_to_an_edge_goes_to_that_edge() {
    let mut e = editor();
    e.handle(Action::Right);
    e.handle(Action::Down);
    e.switch_panel(&PanelMovement::RightEdge);
    assert_eq!(e.active(), ActivePanel::Hex);
    assert_eq!(*e.active_panel().cursor(), Position { x: 15, y: 1 });
    e.switch_panel(&PanelMovement::LeftEdge);
    assert_eq!(e.active(), ActivePanel::Ascii);
    assert_eq!(*e.active_panel().cursor(), Position { x: 0, y: 1 });
    e.switch_panel(&PanelMovement::KeepCursor);
    assert_eq!(e.active(), ActivePanel::Hex);
    assert_eq!(*e.active_panel().cursor(), Position { x: 0, y: 1 });
}

#[test]
fn down_from_the_bottom_row_scrolls_a_two_hundred_byte_file() {
    let file = data(200);
    let mut e = open(&file);
    for row in 1..10 {
        assert_eq!(e.handle(Action::Down), Step::Redraw);
        assert_eq!(*e.active_panel().cursor(), Position { x: 0, y: row });
    }
    let step = e.handle(Action::Down);
    assert_eq!(step, Step::Read { offset: 16, len: 160 });
    assert_eq!(*e.active_panel().cursor(), Position { x: 0, y: 9 });
    serve(&mut e, step, &file);
    assert_eq!(e.file().unwrap().origin(), 16);
    assert_eq!(e.file().unwrap().position(), 1);
    assert_eq!(e.file().unwrap().buffer(), &file[16..176]);

    let step = e.handle(Action::Down);
    assert_eq!(step, Step::Read { offset: 32, len: 160 });
    serve(&mut e, step, &file);
    assert_eq!(e.file().unwrap().origin(), 32);
    assert_eq!(e.file().unwrap().position(), 2);
    assert_eq!(e.file().unwrap().file_len() - e.file().unwrap().origin(), 168);
    assert_eq!(e.file().unwrap().buffer(), &file[32..192]);
}

#[test]
fn up_from_the_top_row_scrolls_back() {
    let file = data(200);
    let mut e = open(&file);
    e.scroll(CursorDirection::Down(3)).unwrap();
    let (offset, len) = e.pending_read().unwrap();
    assert_eq!((offset, len), (48, 152));
    serve(&mut e, Step::Read { offset, len }, &file);
    assert_eq!(e.file().unwrap().buffer(), &file[48..200]);
    let step = e.handle(Action::Up);
    assert_eq!(step, Step::Read { offset: 32, len: 160 });
    assert_eq!(*e.active_panel().cursor(), Position { x: 0, y: 0 });
    serve(&mut e, step, &file);
    e.handle(Action::Up);
    let step = e.handle(Action::Up);
    assert_eq!(step, Step::Read { offset: 0, len: 160 });
    serve(&mut e, step, &file);
    assert_eq!(e.handle(Action::Up), Step::Redraw);
    assert_eq!(e.file().unwrap().origin(), 0);
}

#[test]
fn steps_at_the_edges_of_a_session_without_a_file_change_nothing() {
    let mut e = editor();
    assert_eq!(e.handle(Action::Up), Step::Redraw);
    assert_eq!(*e.active_panel().cursor(), Position { x: 0, y: 0 });
    for _ in 0..12 {
        assert_eq!(e.handle(Action::Down), Step::Redraw);
    }
    assert_eq!(*e.active_panel().cursor(), Position { x: 0, y: 9 });
    assert!(e.file().is_none());
}

#[test]
fn quit_and_the_other_actions_leave_the_session_as_it_is() {
    let mut e = editor();
    e.handle(Action::Right);
    assert_eq!(e.handle(Action::Quit), Step::Quit);
    assert_eq!(e.handle(Action::UnboundKey), Step::Redraw);
    assert_eq!(e.handle(Action::OnFocus), Step::Redraw);
    assert_eq!(e.handle(Action::OnBlur), Step::Redraw);
    assert_eq!(e.handle(Action::Mouse(Position { x: 1, y: 1 })), Step::Redraw);
    assert_eq!(e.handle(Action::Paste(String::from("x"))), Step::Redraw);
    assert_eq!(e.active(), ActivePanel::Ascii);
    assert_eq!(*e.active_panel().cursor(), Position { x: 1, y: 0 });
}

#[test]
fn quit_comes_before_a_read() {
    let mut e = editor();
    e.open_file(200);
    assert_eq!(e.handle(Action::Quit), Step::Quit);
    assert_eq!(e.handle(Action::UnboundKey), Step::Read { offset: 0, len: 160 });
}

#[test]
fn a_scroll_too_far_to_tell_is_an_invalid_movement() {
    let mut e = editor();
    e.open_file(200);
    let r = e.scroll(CursorDirection::Down(u64::MAX));
    assert!(matches!(r, Err(EditorError::InvalidMovement(_))));
    assert_eq!(e.file().unwrap().origin(), 0);
}

#[test]
fn a_failed_read_is_an_io_error() {
    let mut e = editor();
    e.open_file(200);
    let r = e.fill(Err(std::io::Error::from(std::io::ErrorKind::NotFound)));
    assert!(matches!(r, Err(EditorError::IOError(_))));
    let r = e.fill(Ok(vec![0; 10]));
    assert!(matches!(r, Err(EditorError::IOError(_))));
    assert_eq!(e.pending_read(), Some((0, 160)));
}

#[test]
fn cursor_errors_convert_into_editor_errors() {
    let e = EditorError::from(CursorError::IOError(std::io::Error::from(
        std::io::ErrorKind::NotFound,
    )));
    assert!(matches!(e, EditorError::IOError(_)));
    let e = EditorError::from(CursorError::InvalidMovement(u8::try_from(300u32).unwrap_err()));
    assert!(matches!(e, EditorError::InvalidMovement(_)));
    let e = EditorError::from(std::io::Error::from(std::io::ErrorKind::NotFound));
    assert!(matches!(e, EditorError::IOError(_)));
}

#[test]
fn a_layout_of_one_byte_a_row_has_one_column() {
    let mut e = Editor::new(Options { bytes_per_group: 1, groups_per_row: 1 }).unwrap();
    assert_eq!(e.cursor(), Position { x: 15, y: 2 });
    e.handle(Action::Left);
    assert_eq!(e.active(), ActivePanel::Hex);
    assert_eq!(*e.active_panel().cursor(), Position { x: 0, y: 0 });
    assert_eq!(e.cursor(), Position { x: 11, y: 2 });
    e.handle(Action::Right);
    assert_eq!(e.active(), ActivePanel::Ascii);
    assert_eq!(*e.active_panel().cursor(), Position { x: 0, y: 0 });
    e.open_file(3);
    assert_eq!(e.pending_read(), Some((0, 3)));
    e.fill(Ok(vec![1, 2, 3])).unwrap();
    e.scroll(CursorDirection::Down(5)).unwrap();
    assert_eq!(e.pending_read(), Some((2, 1)));
}

#[test]
fn the_cursor_shows_on_the_cell_of_its_byte() {
    let mut e = Editor::new(Options { bytes_per_group: 4, groups_per_row: 4 }).unwrap();
    for _ in 0..5 {
        e.handle(Action::Right);
    }
    e.handle(Action::Down);
    assert_eq!(e.cursor(), Position { x: e.geometry().ascii_column_offset(5), y: 3 });
    e.handle(Action::SwitchPanel);
    assert_eq!(e.cursor(), Position { x: e.geometry().hex_column_offset(1, 1), y: 3 });
    assert_eq!(e.cursor(), Position { x: 11 + 13 + 3, y: 3 });
}
