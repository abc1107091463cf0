use hexview::file::{CursorDirection, CursorError, FileCursor};

fn data(len: usize) -> Vec<u8> {
    (0..len).map(|i| (i % 251) as u8).collect()
}

/// Reads what the window covers out of `file`, as a reader of the file would.
fn read(cursor: &FileCursor, file: &[u8]) -> Result<Vec<u8>, std::io::Error> {
    let from = cursor.origin() as usize;
    Ok(file[from..from + cursor.window_len()].to_vec())
}

#[test]
fn a_new_window_starts_at_zero_and_waits() {
    let c = FileCursor::new(200, 160, 16);
    assert_eq!(c.origin(), 0);
    assert_eq!(c.position(), 0);
    assert_eq!(c.file_len(), 200);
    assert_eq!(c.window_len(), 160);
    assert!(!c.is_filled());
    assert!(c.buffer().is_empty());
}

#[test]
fn a_two_hundred_byte_file_scrolls_by_rows() {
    let file = data(200);
    let mut c = FileCursor::new(200, 160, 16);
    c.fill(read(&c, &file)).unwrap();
    assert_eq!(c.origin(), 0);
    assert_eq!(c.position(), 0);
    assert_eq!(c.buffer(), &file[0..160]);

    c.scroll(CursorDirection::Down(1)).unwrap();
    assert!(!c.is_filled());
    assert!(c.buffer().is_empty());
    c.fill(read(&c, &file)).unwrap();
    assert_eq!(c.origin(), 16);
    assert_eq!(c.position(), 1);
    assert_eq!(c.buffer(), &file[16..176]);

    c.scroll(CursorDirection::Down(1)).unwrap();
    c.fill(read(&c, &file)).unwrap();
    assert_eq!(c.origin(), 32);
    assert_eq!(c.position(), 2);
    assert_eq!(c.file_len() - c.origin(), 168);
    assert_eq!(c.buffer(), &file[32..192]);
}

#[test]
fn the_last_window_is_short() {
    let file = data(200);
    let mut c = FileCursor::new(200, 160, 16);
    c.scroll(CursorDirection::Down(3)).unwrap();
    assert_eq!(c.origin(), 48);
    assert_eq!(c.window_len(), 152);
    c.fill(read(&c, &file)).unwrap();
    assert_eq!(c.buffer(), &file[48..200]);
    c.scroll(CursorDirection::Down(9)).unwrap();
    assert_eq!(c.origin(), 192);
    assert_eq!(c.window_len(), 8);
    c.fill(read(&c, &file)).unwrap();
    assert_eq!(c.buffer(), &file[192..200]);
}

#[test]
fn down_stops_at_the_last_row() {
    let mut c = FileCursor::new(200, 160, 16);
    c.scroll(CursorDirection::Down(1000)).unwrap();
    assert_eq!(c.origin(), 192);
    c.scroll(CursorDirection::Down(1)).unwrap();
    assert_eq!(c.origin(), 192);
}

#[test]
fn down_stops_before_the_end_of_a_file_of_whole_rows() {
    let mut c = FileCursor::new(192, 160, 16);
    c.scroll(CursorDirection::Down(12)).unwrap();
    assert_eq!(c.origin(), 176);
    assert_eq!(c.window_len(), 16);
}

#[test]
fn up_stops_at_zero() {
    let mut c = FileCursor::new(200, 160, 16);
    c.scroll(CursorDirection::Down(2)).unwrap();
    c.scroll(CursorDirection::Up(5)).unwrap();
    assert_eq!(c.origin(), 0);
    c.scroll(CursorDirection::Up(1)).unwrap();
    assert_eq!(c.origin(), 0);
}

#[test]
fn a_scroll_that_moves_nothing_keeps_the_bytes() {
    let file = data(200);
    let mut c = FileCursor::new(200, 160, 16);
    c.fill(read(&c, &file)).unwrap();
    c.scroll(CursorDirection::Up(1)).unwrap();
    assert!(c.is_filled());
    assert_eq!(c.buffer(), &file[0..160]);
    c.scroll(CursorDirection::Down(0)).unwrap();
    assert!(c.is_filled());
    assert_eq!(c.origin(), 0);
}

#[test]
fn down_then_up_comes_back() {
    let mut c = FileCursor::new(1000, 160, 16);
    c.scroll(CursorDirection::Down(7)).unwrap();
    let before = c.origin();
    c.scroll(CursorDirection::Down(1)).unwrap();
    c.scroll(CursorDirection::Up(1)).unwrap();
    assert_eq!(c.origin(), before);
    assert_eq!(before, 112);
}

#[test]
fn repeated_up_reaches_zero() {
    let mut c = FileCursor::new(1000, 160, 16);
    c.scroll(CursorDirection::Down(5)).unwrap();
    for _ in 0..5 {
        c.scroll(CursorDirection::Up(1)).unwrap();
    }
    assert_eq!(c.origin(), 0);
}

#[test]
fn an_empty_file_has_an_empty_window() {
    let mut c = FileCursor::new(0, 160, 16);
    assert_eq!(c.window_len(), 0);
    assert!(c.is_filled());
    c.scroll(CursorDirection::Down(1)).unwrap();
    assert_eq!(c.origin(), 0);
    c.fill(Ok(Vec::new())).unwrap();
    assert!(c.buffer().is_empty());
}

#[test]
fn a_distance_beyond_i64_is_an_invalid_movement() {
    let mut c = FileCursor::new(200, 160, 16);
    let r = c.scroll(CursorDirection::Down(u64::MAX));
    assert!(matches!(r, Err(CursorError::InvalidMovement(_))));
    assert_eq!(c.origin(), 0);
    let r = c.scroll(CursorDirection::Up(1 << 59));
    assert!(matches!(r, Err(CursorError::InvalidMovement(_))));
    let r = c.scroll(CursorDirection::Down((1 << 59) - 1));
    assert!(r.is_ok());
    assert_eq!(c.origin(), 192);
}

#[test]
fn a_window_fills_out_of_a_file_in_memory() {
    let file = data(200);
    let mut c = FileCursor::new(200, 160, 16);
    c.fill_from(&file);
    assert!(c.is_filled());
    assert_eq!(c.buffer(), &file[0..160]);
    c.scroll(CursorDirection::Down(1)).unwrap();
    c.fill_from(&file);
    assert_eq!(c.buffer(), &file[16..176]);
    c.scroll(CursorDirection::Down(1)).unwrap();
    c.fill_from(&file);
    assert_eq!(c.buffer(), &file[32..192]);
    c.scroll(CursorDirection::Down(10)).unwrap();
    c.fill_from(&file);
    assert_eq!(c.buffer(), &file[192..200]);
    let mut c = FileCursor::new(0, 160, 16);
    c.fill_from(&[]);
    assert!(c.buffer().is_empty());
}

#[test]
fn a_read_of_the_wrong_length_is_an_io_error() {
    let mut c = FileCursor::new(200, 160, 16);
    let r = c.fill(Ok(vec![0; 159]));
    match &r {
        Err(CursorError::IOError(e)) => assert_eq!(e.kind(), std::io::ErrorKind::UnexpectedEof),
        _ => panic!("a short read should be an I/O error"),
    }
    assert!(matches!(r, Err(CursorError::IOError(_))));
    assert!(c.buffer().is_empty());
    let r = c.fill(Ok(vec![0; 161]));
    assert!(matches!(r, Err(CursorError::IOError(_))));
    assert!(c.buffer().is_empty());
}

#[test]
fn a_failed_read_is_passed_on() {
    let mut c = FileCursor::new(200, 160, 16);
    let r = c.fill(Err(std::io::Error::from(std::io::ErrorKind::PermissionDenied)));
    match r {
        Err(CursorError::IOError(e)) => assert_eq!(e.kind(), std::io::ErrorKind::PermissionDenied),
        _ => panic!("the error of the read should come back"),
    }
}

#[test]
fn errors_convert_into_cursor_errors() {
    let e = CursorError::from(std::io::Error::from(std::io::ErrorKind::NotFound));
    assert!(matches!(e, CursorError::IOError(_)));
    let e = CursorError::from(u8::try_from(300u32).unwrap_err());
    assert!(matches!(e, CursorError::InvalidMovement(_)));
}

#[test]
fn valid_directions_ask_for_one_row_at_least() {
    assert!(CursorDirection::Down(1).is_valid());
    assert!(CursorDirection::Up(1).is_valid());
    assert!(CursorDirection::Up(i64::MAX as u64).is_valid());
    assert!(!CursorDirection::Down(0).is_valid());
    assert!(!CursorDirection::Up(0).is_valid());
    assert!(!CursorDirection::Down(i64::MAX as u64 + 1).is_valid());
}

#[test]
fn a_new_window_size_keeps_the_place() {
    let mut c = FileCursor::new(1000, 160, 16);
    c.scroll(CursorDirection::Down(5)).unwrap();
    assert_eq!(c.origin(), 80);
    let c = c.set_window(96, 24);
    assert_eq!(c.origin(), 72);
    assert_eq!(c.position(), 3);
    assert_eq!(c.window_len(), 96);
    assert!(c.buffer().is_empty());
}

#[test]
fn a_file_of_one_byte_has_one_row() {
    let mut c = FileCursor::new(1, 160, 16);
    assert_eq!(c.window_len(), 1);
    c.scroll(CursorDirection::Down(1)).unwrap();
    assert_eq!(c.origin(), 0);
    c.fill_from(&[7]);
    assert_eq!(c.buffer(), &[7]);
}

#[test]
fn a_window_of_one_row_walks_through_the_file() {
    let file = data(40);
    let mut c = FileCursor::new(40, 16, 16);
    c.fill_from(&file);
    assert_eq!(c.buffer(), &file[0..16]);
    c.scroll(CursorDirection::Down(2)).unwrap();
    c.fill_from(&file);
    assert_eq!(c.origin(), 32);
    assert_eq!(c.buffer(), &file[32..40]);
    c.scroll(CursorDirection::Up(1)).unwrap();
    c.fill_from(&file);
    assert_eq!(c.buffer(), &file[16..32]);
}
