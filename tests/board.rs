use tictactoe::board::{Board, Cell, PlaceError};
use tictactoe::player::{Player, PlayerSymbol};

#[test]
fn test_new_board() {
    let board = Board::new();
    assert_eq!(board.cells.len(), 9);
}

#[test]
fn test_new_cell() {
    let cell = Cell { value: None };
    assert_eq!(cell.value, None);
}

#[test]
fn test_new_player() {
    let player = Player {
        symbol: PlayerSymbol::X,
    };
    assert_eq!(player.symbol, PlayerSymbol::X);
}

#[test]
fn new_board_has_every_cell_empty() {
    let board = Board::new();
    for i in 0..9 {
        assert_eq!(board.cell_at(i), None);
    }
}

#[test]
fn place_is_seen_by_cell_at() {
    let mut board = Board::new();
    assert_eq!(board.place(4, PlayerSymbol::O), Ok(()));
    assert_eq!(board.cell_at(4), Some(PlayerSymbol::O));
    for i in 0..9 {
        if i != 4 {
            assert_eq!(board.cell_at(i), None);
        }
    }
}

#[test]
fn second_place_on_a_cell_is_occupied() {
    let mut board = Board::new();
    assert_eq!(board.place(0, PlayerSymbol::X), Ok(()));
    assert_eq!(board.place(0, PlayerSymbol::O), Err(PlaceError::CellOccupied));
    assert_eq!(board.place(0, PlayerSymbol::X), Err(PlaceError::CellOccupied));
    assert_eq!(board.cell_at(0), Some(PlayerSymbol::X));
}

#[test]
fn place_out_of_range_changes_nothing() {
    let mut board = Board::new();
    assert_eq!(board.place(9, PlayerSymbol::X), Err(PlaceError::OutOfRange));
    assert_eq!(board.place(-1, PlayerSymbol::X), Err(PlaceError::OutOfRange));
    assert_eq!(board.place(i64::MAX, PlayerSymbol::O), Err(PlaceError::OutOfRange));
    assert_eq!(board.place(i64::MIN, PlayerSymbol::O), Err(PlaceError::OutOfRange));
    assert_eq!(board.cells.len(), 9);
    for i in 0..9 {
        assert_eq!(board.cell_at(i), None);
    }
}

#[test]
fn place_fills_the_last_cell() {
    let mut board = Board::new();
    assert_eq!(board.place(8, PlayerSymbol::O), Ok(()));
    assert_eq!(board.cell_at(8), Some(PlayerSymbol::O));
}
