use vstd::prelude::*;

use crate::player::PlayerSymbol;

verus! {

/// Number of cells of a board, indexed `0..9` in row-major order.
pub const BOARD_SIZE: usize = 9;

/// One position of the board: empty, or holding the mark placed there.
pub struct Cell {
    pub value: Option<PlayerSymbol>,
}

/// The 3x3 grid, as its nine cells in row-major order.
pub struct Board {
    pub cells: Vec<Cell>,
}

/// Why a mark could not be placed on a board.
#[derive(Debug, Clone, Copy, PartialEq, Eq, Structural)]
pub enum PlaceError {
    /// The index is not one of `0..9`.
    OutOfRange,
    /// The cell already holds a mark.
    CellOccupied,
}

/// The board `b` after placing `s` at `index`, or the reason it is refused.
pub open spec fn place_result(b: Seq<Option<PlayerSymbol>>, index: int, s: PlayerSymbol) -> Result<
    Seq<Option<PlayerSymbol>>,
    PlaceError,
> {
    if !(0 <= index < BOARD_SIZE) {
        Err(PlaceError::OutOfRange)
    } else if b[index] is Some {
        Err(PlaceError::CellOccupied)
    } else {
        Ok(b.update(index, Some(s)))
    }
}

impl View for Board {
    type V = Seq<Option<PlayerSymbol>>;

    open spec fn view(&self) -> Seq<Option<PlayerSymbol>> {
        self.cells@.map_values(|c: Cell| c.value)
    }
}

impl Board {
    /// A board always has exactly nine cells.
    pub open spec fn wf(&self) -> bool {
        self.cells@.len() == BOARD_SIZE
    }

    /// Creates a board whose nine cells are all empty.
    pub fn new() -> (b: Board)
        ensures
            b.wf(),
            b@ == Seq::new(BOARD_SIZE as nat, |i: int| None::<PlayerSymbol>),
    {
        let mut cells: Vec<Cell> = Vec::with_capacity(BOARD_SIZE);
        for _i in 0..BOARD_SIZE
            invariant
                cells@.len() == _i,
                forall|j: int| 0 <= j < cells@.len() ==> cells@[j].value is None,
        {
            cells.push(Cell { value: None });
        }
        let b = Board { cells };
        assert(b@ =~= Seq::new(BOARD_SIZE as nat, |i: int| None::<PlayerSymbol>));
        b
    }

    /// The mark held by the cell at `index`.
    pub fn cell_at(&self, index: usize) -> (r: Option<PlayerSymbol>)
        requires
            self.wf(),
            index < BOARD_SIZE,
        ensures
            r == self@[index as int],
    {
        self.cells[index].value
    }

    /// Marks the cell at `index` with `s`. Refused, leaving the board as it
    /// was, when `index` is outside `0..9` or the cell is already marked.
    pub fn place(&mut self, index: i64, s: PlayerSymbol) -> (r: Result<(), PlaceError>)
        requires
            old(self).wf(),
        ensures
            final(self).wf(),
            match place_result(old(self)@, index as int, s) {
                Ok(b) => r is Ok && final(self)@ == b,
                Err(e) => r == Err::<(), PlaceError>(e) && final(self)@ == old(self)@,
            },
    {
        if index < 0 || index >= BOARD_SIZE as i64 {
            return Err(PlaceError::OutOfRange);
        }
        let i = index as usize;
        match self.cells[i].value {
            Some(_) => Err(PlaceError::CellOccupied),
            None => {
                self.cells.set(i, Cell { value: Some(s) });
                assert(self@ =~= old(self)@.update(i as int, Some(s)));
                Ok(())
            },
        }
    }
}

} // verus!
