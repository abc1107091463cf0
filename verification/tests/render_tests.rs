use crossterm::style::Stylize;
use hexview::editor::{ActivePanel, Editor, Options};
use hexview::render::{header_line, row_line};
use hexview::snapshot::Snapshot;
use hexview::stuff::Position;
use hexview::view::FileView;

fn text(line: &[u8]) -> String {
    String::from_utf8(line.to_vec()).unwrap()
}

#[test]
fn the_header_names_the_bytes_of_a_row() {
    assert_eq!(
        text(&header_line(8, 2)),
        "           00 01 02 03 04 05 06 07  08 09 0A 0B 0C 0D 0E 0F  ASCII"
    );
    assert_eq!(text(&header_line(2, 3)), "           00 01  02 03  04 05  ASCII");
    assert_eq!(text(&header_line(1, 1)), "           00  ASCII");
}

#[test]
fn the_header_tells_the_last_two_digits_of_an_index() {
    let header = text(&header_line(129, 2));
    assert!(header.contains(" 7F 80 "));
    assert!(header.contains(" FF 00 01  ASCII"));
}

#[test]
fn a_full_row_shows_offset_hex_pairs_and_characters() {
    assert_eq!(
        text(&row_line(0x10, b"ABCDEFGHIJKLMNOP", 8, 2, b".")),
        "00000010:  41 42 43 44 45 46 47 48  49 4A 4B 4C 4D 4E 4F 50 |ABCDEFGHIJKLMNOP|"
    );
}

#[test]
fn a_row_is_as_wide_as_the_layout_says() {
    let line = row_line(0, b"ABCDEFGHIJKLMNOP", 8, 2, b".");
    assert_eq!(line.len(), 78);
    assert_eq!(line[11], b'4');
    assert_eq!(line[12], b'1');
    assert_eq!(line[36], b'4');
    assert_eq!(line[37], b'9');
    assert_eq!(line[60], b'|');
    assert_eq!(line[61], b'A');
    assert_eq!(line[76], b'P');
    assert_eq!(line[77], b'|');
}

#[test]
fn bytes_without_a_character_show_as_the_blank() {
    assert_eq!(
        text(&row_line(0, &[0x00, 0x0a, 0x1f, 0x20, 0x7e, 0x7f, 0x80, 0xff], 4, 2, b".")),
        "00000000:  00 0A 1F 20  7E 7F 80 FF |... ~...|"
    );
    assert_eq!(
        text(&row_line(0, &[0x41, 0x0a], 2, 1, b"<nl>")),
        "00000000:  41 0A |A<nl>|"
    );
    assert_eq!(text(&row_line(0, &[0x0a], 1, 1, b"")), "00000000:  0A ||");
}

#[test]
fn a_short_row_is_padded_to_the_bars() {
    assert_eq!(
        text(&row_line(0xc0, b"ABCDEFGH", 8, 2, b".")),
        "000000C0:  41 42 43 44 45 46 47 48                          |ABCDEFGH        |"
    );
    assert_eq!(text(&row_line(0, b"", 2, 2, b".")), "00000000:               |    |");
}

#[test]
fn an_offset_shows_its_last_eight_digits() {
    assert!(text(&row_line(0xdead_beef, b"", 1, 1, b".")).starts_with("DEADBEEF: "));
    assert!(text(&row_line(0x1_2345_6789, b"", 1, 1, b".")).starts_with("23456789: "));
    assert!(text(&row_line(u64::MAX, b"", 1, 1, b".")).starts_with("FFFFFFFF: "));
    assert!(text(&row_line(9, b"", 1, 1, b".")).starts_with("00000009: "));
}

#[test]
fn a_snapshot_draws_the_header_and_a_line_for_each_row() {
    let bytes: Vec<u8> = (0x41..0x41 + 20).collect();
    let s = Snapshot {
        window_bytes: &bytes,
        bytes_per_row: 8,
        groups_per_row: 2,
        bytes_per_group: 4,
        current_row_offset: 2,
        active_panel: ActivePanel::Hex,
        cursor_column: 0,
        cursor_row: 0,
    };
    assert_eq!(s.row_offset(0), 16);
    assert_eq!(s.row_offset(1), 24);
    assert_eq!(s.row_offset(2), 32);
    let lines = s.draw(b".");
    assert_eq!(lines.len(), 5);
    assert_eq!(text(&lines[0]), "           00 01 02 03  04 05 06 07  ASCII");
    assert_eq!(text(&lines[1]), "");
    assert_eq!(text(&lines[2]), "00000010:  41 42 43 44  45 46 47 48 |ABCDEFGH|");
    assert_eq!(text(&lines[3]), "00000018:  49 4A 4B 4C  4D 4E 4F 50 |IJKLMNOP|");
    assert_eq!(text(&lines[4]), "00000020:  51 52 53 54              |QRST    |");
}

#[test]
fn an_empty_window_draws_the_header_alone() {
    let s = Snapshot {
        window_bytes: &[],
        bytes_per_row: 16,
        groups_per_row: 2,
        bytes_per_group: 8,
        current_row_offset: 0,
        active_panel: ActivePanel::Ascii,
        cursor_column: 0,
        cursor_row: 0,
    };
    assert_eq!(s.draw(b".").len(), 2);
}

#[test]
fn a_session_draws_its_window() {
    let file: Vec<u8> = (0..200u32).map(|i| 0x30 + (i % 64) as u8).collect();
    let mut e = Editor::new(Options { bytes_per_group: 8, groups_per_row: 2 }).unwrap();
    e.open_file(200);
    let (offset, len) = e.pending_read().unwrap();
    e.fill(Ok(file[offset as usize..offset as usize + len].to_vec())).unwrap();
    let s = e.snapshot();
    assert_eq!(s.window_bytes, &file[0..160]);
    assert_eq!(s.bytes_per_row, 16);
    assert_eq!(s.groups_per_row, 2);
    assert_eq!(s.bytes_per_group, 8);
    assert_eq!(s.current_row_offset, 0);
    assert_eq!(s.active_panel, ActivePanel::Ascii);
    assert_eq!((s.cursor_column, s.cursor_row), (0, 0));
    let frame = e.draw(b".");
    assert_eq!(frame.cursor, Position { x: 61, y: 2 });
    assert_eq!(frame.lines.len(), 12);
    assert_eq!(
        text(&frame.lines[2]),
        "00000000:  30 31 32 33 34 35 36 37  38 39 3A 3B 3C 3D 3E 3F |0123456789:;<=>?|"
    );
    assert_eq!(
        text(&frame.lines[11]),
        "00000090:  40 41 42 43 44 45 46 47  48 49 4A 4B 4C 4D 4E 4F |@ABCDEFGHIJKLMNO|"
    );
}

#[test]
fn the_display_marks_bytes_without_a_character_as_the_terminal_library_styles_a_blank() {
    let blank = " ".on_dark_grey().to_string().into_bytes();
    let file = vec![0x41, 0x0a, 0x42];
    let mut e = Editor::new(Options { bytes_per_group: 2, groups_per_row: 2 }).unwrap();
    e.open_file(3);
    e.fill(Ok(file.clone())).unwrap();
    let shown = e.display();
    assert_eq!(shown.lines, e.draw(&blank).lines);
    assert_eq!(shown.cursor, e.cursor());
    let mut row = b"00000000:  41 0A  42    |A".to_vec();
    row.extend_from_slice(&blank);
    row.extend_from_slice(b"B |");
    assert_eq!(shown.lines[2], row);

    let mut v = FileView::new(3);
    v.fill(Ok(file)).unwrap();
    let shown = v.display();
    assert_eq!(shown.lines, v.draw(&blank).lines);
    assert_eq!(shown.cursor, v.cursor_position());
    assert_eq!(shown.lines.len(), 3);
}

#[test]
fn a_view_draws_its_window() {
    let file: Vec<u8> = (0..40u8).map(|i| 0x41 + i % 26).collect();
    let mut v = FileView::new(40);
    v.fill(Ok(file.clone())).unwrap();
    let s = v.snapshot();
    assert_eq!(s.window_bytes, &file[..]);
    assert_eq!(s.bytes_per_row, 16);
    assert_eq!(s.current_row_offset, 0);
    assert_eq!(s.active_panel, ActivePanel::Ascii);
    let frame = v.draw(b".");
    assert_eq!(frame.lines.len(), 5);
    assert_eq!(
        text(&frame.lines[4]),
        "00000020:  47 48 49 4A 4B 4C 4D 4E                          |GHIJKLMN        |"
    );
    assert_eq!(frame.cursor, Position { x: 61, y: 2 });
}
