use vstd::prelude::*;

use crate::board::{place_result, Board, PlaceError, BOARD_SIZE};
use crate::input::Input;
use crate::player::{Player, PlayerSymbol};
use crate::text::{is_numeral, numeral_value, parse_usize, trim, trimmed};

verus! {

/// The outcome of scoring a board for the player who just moved.
#[derive(Debug, Clone, Copy, PartialEq, Eq, Structural)]
pub enum GameState {
    InProgress,
    Win,
    Draw,
}

/// Why a turn was refused; every one of them leaves the game as it was.
#[derive(Debug, Clone, Copy, PartialEq, Eq, Structural)]
pub enum GameError {
    /// The line typed is not an unsigned number.
    ParseError,
    /// The number typed is not one of the cells `0..9`.
    OutOfRangeSelection,
    /// The cell chosen already holds a mark.
    CellOccupied,
    /// The cell index handed to the board is outside `0..9`.
    OutOfRange,
    /// No line could be read from the input source.
    InputUnavailable,
}

/// What the session does after a turn.
#[derive(Debug, Clone, Copy, PartialEq, Eq, Structural)]
pub enum SessionStep {
    /// The move stood and the game goes on with the other player.
    NextTurn,
    /// The move was refused for this reason; the same player is asked again.
    AskAgain(GameError),
    /// The game has ended with this state (`Win` for the mover, or `Draw`).
    GameOver(GameState),
    /// No input can be had: the session ends without a result.
    Abort,
}

/// The session's policy on a turn's outcome: terminal states end it, a failed
/// read aborts it, and every other refusal asks the same player again.
pub open spec fn session_step_of(outcome: Result<GameState, GameError>) -> SessionStep {
    match outcome {
        Ok(GameState::InProgress) => SessionStep::NextTurn,
        Ok(state) => SessionStep::GameOver(state),
        Err(GameError::InputUnavailable) => SessionStep::Abort,
        Err(e) => SessionStep::AskAgain(e),
    }
}

/// Decides how the session goes on after a turn with this outcome.
pub fn session_step(outcome: Result<GameState, GameError>) -> (r: SessionStep)
    ensures
        r == session_step_of(outcome),
{
    match outcome {
        Ok(GameState::InProgress) => SessionStep::NextTurn,
        Ok(state) => SessionStep::GameOver(state),
        Err(GameError::InputUnavailable) => SessionStep::Abort,
        Err(e) => SessionStep::AskAgain(e),
    }
}

/// The cells of the `k`-th winning line: three rows, three columns, two diagonals.
pub open spec fn winning_line(k: int) -> (int, int, int) {
    if k == 0 {
        (0, 1, 2)
    } else if k == 1 {
        (3, 4, 5)
    } else if k == 2 {
        (6, 7, 8)
    } else if k == 3 {
        (0, 3, 6)
    } else if k == 4 {
        (1, 4, 7)
    } else if k == 5 {
        (2, 5, 8)
    } else if k == 6 {
        (0, 4, 8)
    } else {
        (2, 4, 6)
    }
}

/// Number of winning lines.
pub const LINE_COUNT: usize = 8;

/// `s` holds all three cells of `line` on board `b`.
pub open spec fn owns_line(b: Seq<Option<PlayerSymbol>>, s: PlayerSymbol, line: (int, int, int)) -> bool {
    &&& b[line.0] == Some(s)
    &&& b[line.1] == Some(s)
    &&& b[line.2] == Some(s)
}

/// `s` holds a complete row, column or diagonal of `b`.
pub open spec fn has_won(b: Seq<Option<PlayerSymbol>>, s: PlayerSymbol) -> bool {
    exists|k: int| 0 <= k < LINE_COUNT && #[trigger] owns_line(b, s, winning_line(k))
}

/// Every cell of `b` holds a mark.
pub open spec fn is_full(b: Seq<Option<PlayerSymbol>>) -> bool {
    forall|i: int| 0 <= i < b.len() ==> #[trigger] b[i] is Some
}

/// The state of board `b` scored for the mover `s`: only `s`'s own lines count.
pub open spec fn state_of(b: Seq<Option<PlayerSymbol>>, s: PlayerSymbol) -> GameState {
    if has_won(b, s) {
        GameState::Win
    } else if is_full(b) {
        GameState::Draw
    } else {
        GameState::InProgress
    }
}

/// The cell chosen by a typed line, or why the line is refused: a line that
/// is not a number is `ParseError`, any number outside `0..9` (however large)
/// is `OutOfRangeSelection`.
pub open spec fn selection_of(line: Seq<char>) -> Result<usize, GameError> {
    match numeral_value(trimmed(line)) {
        Some(v) => if v < BOARD_SIZE {
            Ok(v as usize)
        } else {
            Err(GameError::OutOfRangeSelection)
        },
        None => Err(GameError::ParseError),
    }
}

/// The cell selected by the outcome of a read.
pub open spec fn read_selection(line: std::io::Result<String>) -> Result<usize, GameError> {
    match line {
        Ok(text) => selection_of(text@),
        Err(_) => Err(GameError::InputUnavailable),
    }
}

/// What the board's refusal becomes for the game.
pub open spec fn place_error(e: PlaceError) -> GameError {
    match e {
        PlaceError::OutOfRange => GameError::OutOfRange,
        PlaceError::CellOccupied => GameError::CellOccupied,
    }
}

/// The cells of the `k`-th winning line.
fn line_cells(k: usize) -> (r: (usize, usize, usize))
    requires
        k < LINE_COUNT,
    ensures
        (r.0 as int, r.1 as int, r.2 as int) == winning_line(k as int),
        r.0 < BOARD_SIZE && r.1 < BOARD_SIZE && r.2 < BOARD_SIZE,
{
    if k == 0 {
        (0, 1, 2)
    } else if k == 1 {
        (3, 4, 5)
    } else if k == 2 {
        (6, 7, 8)
    } else if k == 3 {
        (0, 3, 6)
    } else if k == 4 {
        (1, 4, 7)
    } else if k == 5 {
        (2, 5, 8)
    } else if k == 6 {
        (0, 4, 8)
    } else {
        (2, 4, 6)
    }
}

/// The cell content `c` is the mark `s`.
fn holds(c: Option<PlayerSymbol>, s: PlayerSymbol) -> (r: bool)
    ensures
        r == (c == Some(s)),
{
    match c {
        Some(m) => m == s,
        None => false,
    }
}

/// A game in play: the board, and the player whose move is being made.
pub struct Game<'a, I: Input> {
    pub board: Board,
    pub current_player: &'a Player,
    pub input: &'a I,
}

impl<'a, I: Input> Game<'a, I> {
    /// The game's board keeps its nine cells.
    pub open spec fn wf(&self) -> bool {
        self.board.wf()
    }

    /// Starts a game on an empty board with `current_player` to move.
    pub fn new(current_player: &'a Player, input: &'a I) -> (g: Game<'a, I>)
        ensures
            g.wf(),
            g.board@ == Seq::new(BOARD_SIZE as nat, |i: int| None::<PlayerSymbol>),
            g.current_player == current_player,
            g.input == input,
    {
        Game { board: Board::new(), current_player, input }
    }

    /// Scores the board for the current player: `Win` when that player holds a
    /// whole line, else `Draw` when the board is full, else `InProgress`.
    pub fn get_state(&self) -> (r: GameState)
        requires
            self.wf(),
        ensures
            r == state_of(self.board@, self.current_player.symbol),
    {
        let s = self.current_player.symbol;
        let mut k: usize = 0;
        while k < LINE_COUNT
            invariant
                self.wf(),
                s == self.current_player.symbol,
                k <= LINE_COUNT,
                forall|j: int| 0 <= j < k ==> !owns_line(self.board@, s, #[trigger] winning_line(j)),
            decreases LINE_COUNT - k,
        {
            let (a, b, c) = line_cells(k);
            if holds(self.board.cell_at(a), s) && holds(self.board.cell_at(b), s) && holds(
                self.board.cell_at(c),
                s,
            ) {
                assert(owns_line(self.board@, s, winning_line(k as int)));
                assert(has_won(self.board@, s));
                return GameState::Win;
            }
            k += 1;
        }
        assert(!has_won(self.board@, s));
        let mut i: usize = 0;
        while i < BOARD_SIZE
            invariant
                self.wf(),
                !has_won(self.board@, self.current_player.symbol),
                i <= BOARD_SIZE,
                forall|j: int| 0 <= j < i ==> #[trigger] self.board@[j] is Some,
            decreases BOARD_SIZE - i,
        {
            if self.board.cell_at(i).is_none() {
                assert(!is_full(self.board@));
                return GameState::InProgress;
            }
            i += 1;
        }
        GameState::Draw
    }

    /// The cell that a line read from the input selects: the line, trimmed of
    /// white space, must be an unsigned number (else `ParseError`) below nine
    /// (else `OutOfRangeSelection`, also for numbers too large for a usize).
    /// A failed read is `InputUnavailable`. Occupancy is not checked here.
    pub fn get_player_selection(&self, line: &std::io::Result<String>) -> (r: Result<usize, GameError>)
        ensures
            r == read_selection(*line),
    {
        match line {
            Ok(text) => {
                let t = trim(text.as_str());
                if !is_numeral(t) {
                    return Err(GameError::ParseError);
                }
                match parse_usize(t) {
                    Some(v) => if v < BOARD_SIZE {
                        Ok(v)
                    } else {
                        Err(GameError::OutOfRangeSelection)
                    },
                    None => Err(GameError::OutOfRangeSelection),
                }
            },
            Err(_) => Err(GameError::InputUnavailable),
        }
    }

    /// Hands the turn to `player`.
    pub fn set_current_player(&mut self, player: &'a Player)
        ensures
            final(self).current_player == player,
            final(self).board == old(self).board,
            final(self).input == old(self).input,
    {
        self.current_player = player;
    }

    /// Places the current player's mark at `cell_index`; the board's refusal
    /// (`OutOfRange`, `CellOccupied`) is passed on and changes nothing.
    pub fn set_move(&mut self, cell_index: usize) -> (r: Result<(), GameError>)
        requires
            old(self).wf(),
        ensures
            final(self).wf(),
            final(self).current_player == old(self).current_player,
            final(self).input == old(self).input,
            match place_result(old(self).board@, cell_index as int, old(self).current_player.symbol) {
                Ok(b) => r is Ok && final(self).board@ == b,
                Err(e) => r == Err::<(), GameError>(place_error(e)) && final(self).board@ == old(
                    self,
                ).board@,
            },
    {
        if cell_index >= BOARD_SIZE {
            return Err(GameError::OutOfRange);
        }
        let s = self.current_player.symbol;
        match self.board.place(cell_index as i64, s) {
            Ok(()) => Ok(()),
            Err(PlaceError::OutOfRange) => Err(GameError::OutOfRange),
            Err(PlaceError::CellOccupied) => Err(GameError::CellOccupied),
        }
    }

    /// One turn of the session, given what was read for the current player.
    /// A refused line or move changes nothing and returns the error, so the
    /// same player is asked again. An accepted move is placed and the board
    /// scored for its mover; while the game goes on, the turn passes to the
    /// other of `player_one` and `player_two` (told apart by their marks).
    pub fn take_turn(
        &mut self,
        line: &std::io::Result<String>,
        player_one: &'a Player,
        player_two: &'a Player,
    ) -> (r: Result<GameState, GameError>)
        requires
            old(self).wf(),
        ensures
            final(self).wf(),
            final(self).input == old(self).input,
            match read_selection(*line) {
                Err(e) => r == Err::<GameState, GameError>(e) && final(self).board@ == old(self).board@
                    && final(self).current_player == old(self).current_player,
                Ok(cell) => match place_result(
                    old(self).board@,
                    cell as int,
                    old(self).current_player.symbol,
                ) {
                    Err(e) => r == Err::<GameState, GameError>(place_error(e)) && final(self).board@
                        == old(self).board@ && final(self).current_player == old(
                        self,
                    ).current_player,
                    Ok(b) => {
                        &&& final(self).board@ == b
                        &&& r == Ok::<GameState, GameError>(
                            state_of(b, old(self).current_player.symbol),
                        )
                        &&& state_of(b, old(self).current_player.symbol) == GameState::InProgress
                            ==> final(self).current_player == if old(self).current_player.symbol
                            == player_one.symbol {
                            player_two
                        } else {
                            player_one
                        }
                        &&& state_of(b, old(self).current_player.symbol) != GameState::InProgress
                            ==> final(self).current_player == old(self).current_player
                    },
                },
            },
    {
        let cell = match self.get_player_selection(line) {
            Ok(cell) => cell,
            Err(e) => return Err(e),
        };
        match self.set_move(cell) {
            Ok(()) => {},
            Err(e) => return Err(e),
        }
        let state = self.get_state();
        if state == GameState::InProgress {
            if self.current_player.symbol == player_one.symbol {
                self.set_current_player(player_two);
            } else {
                self.set_current_player(player_one);
            }
        }
        Ok(state)
    }
}

} // verus!
