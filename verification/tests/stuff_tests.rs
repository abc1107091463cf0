use hexview::stuff::{Position, Size};

#[test]
fn defaults_are_zero() {
    assert_eq!(Position::default(), Position { x: 0, y: 0 });
    assert_eq!(Size::default(), Size { width: 0, height: 0 });
}

#[test]
fn conversions_keep_both_numbers() {
    assert_eq!(Position::from(Size { width: 3, height: 4 }), Position { x: 3, y: 4 });
    assert_eq!(Size::from(Position { x: 5, y: 6 }), Size { width: 5, height: 6 });
    assert_eq!(<(u16, u16)>::from(Size { width: 7, height: 8 }), (7, 8));
    assert_eq!(<(u16, u16)>::from(Position { x: 9, y: 10 }), (9, 10));
    assert_eq!(Size::from((11, 12)), Size { width: 11, height: 12 });
    assert_eq!(Position::from((13, 14)), Position { x: 13, y: 14 });
}

#[test]
fn addition_is_by_component() {
    assert_eq!(
        Size { width: 1, height: 2 } + Size { width: 10, height: 20 },
        Size { width: 11, height: 22 }
    );
    assert_eq!(Size { width: 1, height: 2 } + (3, 4), Size { width: 4, height: 6 });
    assert_eq!(
        Position { x: 1, y: 2 } + Size { width: 16, height: 10 },
        Position { x: 17, y: 12 }
    );
    assert_eq!(Position { x: 1, y: 2 } + (0, 0), Position { x: 1, y: 2 });
}

#[test]
fn positions_order_by_column_then_row() {
    assert!(Position { x: 1, y: 9 } < Position { x: 2, y: 0 });
    assert!(Position { x: 1, y: 1 } < Position { x: 1, y: 2 });
    assert!(Size { width: 1, height: 9 } < Size { width: 2, height: 0 });
}
