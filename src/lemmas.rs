use vstd::prelude::*;

use crate::board::{place_result, PlaceError, BOARD_SIZE};
use crate::game::{has_won, is_full, owns_line, state_of, winning_line, GameState, LINE_COUNT};
use crate::player::PlayerSymbol;

verus! {

/// Placing on an empty cell of a board succeeds and leaves the mark in that
/// cell; placing there again, with either mark, is refused as `CellOccupied`
/// and keeps the first mark.
pub proof fn lemma_place_then_occupied(
    b: Seq<Option<PlayerSymbol>>,
    index: int,
    s: PlayerSymbol,
    t: PlayerSymbol,
)
    requires
        b.len() == BOARD_SIZE,
        0 <= index < BOARD_SIZE,
        b[index] is None,
    ensures
        place_result(b, index, s) is Ok,
        place_result(b, index, s)->Ok_0[index] == Some(s),
        place_result(place_result(b, index, s)->Ok_0, index, t) == Err::<
            Seq<Option<PlayerSymbol>>,
            PlaceError,
        >(PlaceError::CellOccupied),
{
}

/// Placing at an index outside `0..9` is refused as `OutOfRange`.
pub proof fn lemma_place_out_of_range(b: Seq<Option<PlayerSymbol>>, index: int, s: PlayerSymbol)
    requires
        b.len() == BOARD_SIZE,
        !(0 <= index < BOARD_SIZE),
    ensures
        place_result(b, index, s) == Err::<Seq<Option<PlayerSymbol>>, PlaceError>(
            PlaceError::OutOfRange,
        ),
{
}

/// A mover holding a whole row, column or diagonal has won.
pub proof fn lemma_line_wins(b: Seq<Option<PlayerSymbol>>, s: PlayerSymbol, k: int)
    requires
        b.len() == BOARD_SIZE,
        0 <= k < LINE_COUNT,
        owns_line(b, s, winning_line(k)),
    ensures
        state_of(b, s) == GameState::Win,
{
}

/// The board is a win exactly when the mover's own mark fills a line: lines
/// of the other mark never make it one.
pub proof fn lemma_win_only_for_mover(b: Seq<Option<PlayerSymbol>>, s: PlayerSymbol)
    requires
        b.len() == BOARD_SIZE,
    ensures
        state_of(b, s) == GameState::Win <==> exists|k: int|
            0 <= k < LINE_COUNT && #[trigger] owns_line(b, s, winning_line(k)),
{
}

/// Without a line of the mover's, a full board is a draw and a board with an
/// empty cell is still in progress.
pub proof fn lemma_draw_or_in_progress(b: Seq<Option<PlayerSymbol>>, s: PlayerSymbol)
    requires
        b.len() == BOARD_SIZE,
        !has_won(b, s),
    ensures
        (forall|i: int| 0 <= i < BOARD_SIZE ==> #[trigger] b[i] is Some) ==> state_of(b, s)
            == GameState::Draw,
        (exists|i: int| 0 <= i < BOARD_SIZE && #[trigger] b[i] is None) ==> state_of(b, s)
            == GameState::InProgress,
{
    assert((exists|i: int| 0 <= i < BOARD_SIZE && #[trigger] b[i] is None) ==> !is_full(b));
}

/// Scoring reads nothing but the board and the mover's mark, so scoring one
/// unchanged board for one mover again gives the same state.
pub proof fn lemma_state_is_stable(
    b1: Seq<Option<PlayerSymbol>>,
    s1: PlayerSymbol,
    b2: Seq<Option<PlayerSymbol>>,
    s2: PlayerSymbol,
)
    requires
        b1 == b2,
        s1 == s2,
    ensures
        state_of(b1, s1) == state_of(b2, s2),
{
}

} // verus!
