use snakeblit::board::{Board, BoardError, Coord, Offset};

fn at(x: u32, y: u32) -> Coord {
    Coord { x, y }
}

fn by(x: i32, y: i32) -> Offset {
    Offset { x, y }
}

#[test]
fn new_board_is_empty() {
    let b = Board::new(18, 32);
    assert_eq!(b.lookup(7), None);
    assert_eq!(b.get(at(0, 0)), Ok(None));
    assert_eq!(b.get(at(31, 17)), Ok(None));
    assert_eq!(b.get(at(32, 0)), Err(BoardError::OutOfBounds));
    assert_eq!(b.get(at(0, 18)), Err(BoardError::OutOfBounds));
}

#[test]
fn place_and_lookup() {
    let mut b = Board::new(18, 32);
    assert_eq!(b.set(at(16, 9), 1), Ok(()));
    assert_eq!(b.lookup(1), Some(at(16, 9)));
    assert_eq!(b.get(at(16, 9)), Ok(Some(1)));
}

#[test]
fn place_out_of_bounds_rejected() {
    let mut b = Board::new(18, 32);
    assert_eq!(b.set(at(32, 0), 1), Err(BoardError::OutOfBounds));
    assert_eq!(b.set(at(5, 18), 1), Err(BoardError::OutOfBounds));
    assert_eq!(b.lookup(1), None);
}

#[test]
fn place_collision_changes_nothing() {
    let mut b = Board::new(18, 32);
    assert_eq!(b.set(at(2, 3), 1), Ok(()));
    assert_eq!(b.set(at(2, 3), 2), Err(BoardError::AlreadyOccupied));
    assert_eq!(b.lookup(1), Some(at(2, 3)));
    assert_eq!(b.get(at(2, 3)), Ok(Some(1)));
    assert_eq!(b.lookup(2), None);
}

#[test]
fn remove_untracked_fails() {
    let mut b = Board::new(18, 32);
    assert_eq!(b.remove(9), Err(BoardError::NotTracked));
    assert_eq!(b.set(at(4, 4), 1), Ok(()));
    assert_eq!(b.remove(2), Err(BoardError::NotTracked));
    assert_eq!(b.lookup(1), Some(at(4, 4)));
    assert_eq!(b.get(at(4, 4)), Ok(Some(1)));
}

#[test]
fn place_then_remove_round_trip() {
    let mut b = Board::new(18, 32);
    assert_eq!(b.set(at(7, 11), 5), Ok(()));
    assert_eq!(b.remove(5), Ok(at(7, 11)));
    assert_eq!(b.lookup(5), None);
    assert_eq!(b.get(at(7, 11)), Ok(None));
}

#[test]
fn move_relocates_entity() {
    let mut b = Board::new(18, 32);
    assert_eq!(b.set(at(5, 5), 1), Ok(()));
    assert_eq!(b.move_item(1, by(0, 1)), Ok(()));
    assert_eq!(b.lookup(1), Some(at(5, 6)));
    assert_eq!(b.get(at(5, 5)), Ok(None));
    assert_eq!(b.get(at(5, 6)), Ok(Some(1)));
}

#[test]
fn move_clamps_lower_bound() {
    let mut b = Board::new(18, 32);
    assert_eq!(b.set(at(0, 0), 1), Ok(()));
    assert_eq!(b.move_item(1, by(-1, 0)), Ok(()));
    assert_eq!(b.lookup(1), Some(at(0, 0)));
    assert_eq!(b.get(at(0, 0)), Ok(Some(1)));
}

#[test]
fn move_past_upper_edge_rejected() {
    let mut b = Board::new(18, 32);
    assert_eq!(b.set(at(31, 9), 1), Ok(()));
    assert_eq!(b.move_item(1, by(1, 0)), Err(BoardError::OutOfBounds));
    assert_eq!(b.lookup(1), Some(at(31, 9)));
    assert_eq!(b.get(at(31, 9)), Ok(Some(1)));
    assert_eq!(b.set(at(13, 17), 2), Ok(()));
    assert_eq!(b.move_item(2, by(0, 1)), Err(BoardError::OutOfBounds));
    assert_eq!(b.lookup(2), Some(at(13, 17)));
}

#[test]
fn move_onto_occupied_cell_rejected() {
    let mut b = Board::new(18, 32);
    assert_eq!(b.set(at(0, 0), 1), Ok(()));
    assert_eq!(b.set(at(1, 0), 2), Ok(()));
    assert_eq!(b.move_item(1, by(1, 0)), Err(BoardError::AlreadyOccupied));
    assert_eq!(b.lookup(1), Some(at(0, 0)));
    assert_eq!(b.lookup(2), Some(at(1, 0)));
    assert_eq!(b.get(at(0, 0)), Ok(Some(1)));
    assert_eq!(b.get(at(1, 0)), Ok(Some(2)));
}

#[test]
fn move_untracked_fails() {
    let mut b = Board::new(18, 32);
    assert_eq!(b.move_item(3, by(1, 0)), Err(BoardError::NotTracked));
    assert_eq!(b.lookup(3), None);
}

#[test]
fn scenario_snake_window() {
    // A 32 by 18 board, as a 1280 x 720 window split into 40-unit cells.
    let mut b = Board::new(18, 32);
    let head = 10;
    let segment = 20;
    assert_eq!(b.set(at(16, 9), head), Ok(()));
    assert_eq!(b.set(at(1, 4), segment), Ok(()));

    assert_eq!(b.move_item(head, by(1, 0)), Ok(()));
    assert_eq!(b.lookup(head), Some(at(17, 9)));
    assert_eq!(b.get(at(16, 9)), Ok(None));
    assert_eq!(b.lookup(segment), Some(at(1, 4)));

    // Large leftward moves clamp at the left edge; once there, further
    // ones land on the entity's own cell and change nothing.
    assert_eq!(b.move_item(head, by(-20, 0)), Ok(()));
    assert_eq!(b.lookup(head), Some(at(0, 9)));
    for _ in 0..3 {
        assert_eq!(b.move_item(head, by(-20, 0)), Ok(()));
        assert_eq!(b.lookup(head), Some(at(0, 9)));
    }
    assert_eq!(b.lookup(segment), Some(at(1, 4)));
    assert_eq!(b.get(at(16, 9)), Ok(None));
    assert_eq!(b.get(at(17, 9)), Ok(None));
}
