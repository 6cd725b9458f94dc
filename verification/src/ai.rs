//! The search: exhaustive negamax over every continuation of a position.

use vstd::prelude::*;
use crate::board::{game_state, outcome, wins, Board, GameState, Tile};
use crate::player::Player;

verus! {

/// How many of the first `n` cells are empty.
pub open spec fn vacant_below(cells: Seq<Tile>, n: int) -> nat
    decreases n,
{
    if n <= 0 {
        0
    } else if cells[n - 1] is None {
        vacant_below(cells, n - 1) + 1
    } else {
        vacant_below(cells, n - 1)
    }
}

/// How many cells of the board are empty.
pub open spec fn vacancies(cells: Seq<Tile>) -> nat {
    vacant_below(cells, 9)
}

/// The board after `player` has taken cell `i`.
pub open spec fn placed(cells: Seq<Tile>, i: int, player: Player) -> Seq<Tile> {
    cells.update(i, Some(player))
}

/// Taking cell `i` changes the count of empty cells among the first `n` by
/// one if `i` is one of them and was empty, and not at all otherwise.
pub proof fn lemma_vacant_below_placed(cells: Seq<Tile>, i: int, player: Player, n: int)
    requires
        0 <= i < cells.len(),
        n <= cells.len(),
    ensures
        vacant_below(placed(cells, i, player), n) + (if i < n && cells[i] is None {
            1nat
        } else {
            0nat
        }) == vacant_below(cells, n),
    decreases n,
{
    if n > 0 {
        lemma_vacant_below_placed(cells, i, player, n - 1);
    }
}

/// What a finished game is worth to the player it is classified for.
pub open spec fn score(state: GameState) -> int {
    match state {
        GameState::Win => 1,
        GameState::Lose => -1,
        GameState::Draw => 0,
        GameState::InProgress => 0,
    }
}

/// What the position is worth to `player`, who is to move, when both sides
/// play as well as can be played: `1` for a win, `-1` for a loss, `0` for a
/// draw. A finished game is worth its score; any other position is worth
/// the best of its moves.
pub open spec fn value(player: Player, cells: Seq<Tile>) -> int
    decreases vacancies(cells), 1int, 0int,
{
    if outcome(player, cells) is InProgress {
        best_below(player, cells, 9).1
    } else {
        score(outcome(player, cells))
    }
}

/// What taking the empty cell `i` is worth to `player`: the opposite of what
/// the position that it leads to is worth to the opponent, who moves next.
pub open spec fn move_value(player: Player, cells: Seq<Tile>, i: int) -> int
    decreases vacancies(cells), 0int, 0int,
    when cells.len() == 9 && 0 <= i < 9 && cells[i] is None
{
    proof {
        lemma_vacant_below_placed(cells, i, player, 9);
    }
    -value(!player, placed(cells, i, player))
}

/// The best move among the empty cells with an index below `n`, and what it
/// is worth: the first of those that are worth most. Where none of these
/// cells is empty, no move and `0`.
pub open spec fn best_below(player: Player, cells: Seq<Tile>, n: int) -> (Option<usize>, int)
    decreases vacancies(cells), 0int, n,
{
    if n <= 0 || n > 9 || cells.len() != 9 {
        (None, 0)
    } else {
        let before = best_below(player, cells, n - 1);
        if cells[n - 1] is None {
            let worth = move_value(player, cells, n - 1);
            if before.0 is None || worth > before.1 {
                (Some((n - 1) as usize), worth)
            } else {
                before
            }
        } else {
            before
        }
    }
}

/// The move that the search picks for `player`: none where the game is
/// over, else the first of the empty cells that are worth most.
pub open spec fn best_move(player: Player, cells: Seq<Tile>) -> Option<usize> {
    if outcome(player, cells) is InProgress {
        best_below(player, cells, 9).0
    } else {
        None
    }
}

/// Cell `m` is empty, no empty cell is worth more to `player`, and every
/// empty cell before it is worth less.
pub open spec fn is_best_move(player: Player, cells: Seq<Tile>, m: int) -> bool {
    &&& 0 <= m < 9
    &&& cells[m] is None
    &&& forall|j: int|
        0 <= j < 9 && (#[trigger] cells[j]) is None ==> move_value(player, cells, j) <= move_value(
            player,
            cells,
            m,
        )
    &&& forall|j: int|
        0 <= j < m && (#[trigger] cells[j]) is None ==> move_value(player, cells, j) < move_value(
            player,
            cells,
            m,
        )
}

/// What `best_below` returns, said without the walk over the cells: no move
/// exactly where none of the first `n` cells is empty, else the first of the
/// empty cells among them that are worth most, with its worth.
pub proof fn lemma_best_below(player: Player, cells: Seq<Tile>, n: int)
    requires
        cells.len() == 9,
        0 <= n <= 9,
    ensures
        match best_below(player, cells, n) {
            (None, worth) => {
                &&& worth == 0
                &&& forall|j: int| 0 <= j < n ==> (#[trigger] cells[j]) is Some
            },
            (Some(m), worth) => {
                &&& 0 <= m < n
                &&& cells[m as int] is None
                &&& worth == move_value(player, cells, m as int)
                &&& forall|j: int|
                    0 <= j < n && (#[trigger] cells[j]) is None ==> move_value(player, cells, j)
                        <= worth
                &&& forall|j: int|
                    0 <= j < m && (#[trigger] cells[j]) is None ==> move_value(player, cells, j)
                        < worth
            },
        },
    decreases n,
{
    if n > 0 {
        lemma_best_below(player, cells, n - 1);
    }
}

/// The value of every position is `-1`, `0` or `1`.
pub proof fn lemma_value_range(player: Player, cells: Seq<Tile>)
    requires
        cells.len() == 9,
    ensures
        -1 <= value(player, cells) <= 1,
    decreases vacancies(cells),
{
    if outcome(player, cells) is InProgress {
        lemma_best_below(player, cells, 9);
        match best_below(player, cells, 9).0 {
            Some(m) => {
                lemma_vacant_below_placed(cells, m as int, player, 9);
                lemma_value_range(!player, placed(cells, m as int, player));
            },
            None => {},
        }
    }
}

/// Finds the best move for `player` on `board`, and what the position is
/// worth to `player`.
///
/// Where the game is over there is no move, and the worth is the score of
/// the outcome. Otherwise every empty cell is tried in ascending order, the
/// opponent's best answer to it is searched in the same way, and the move
/// returned is the first of those that leave the opponent with least.
pub fn minmax(player: Player, board: &Board) -> (best: (Option<usize>, i8))
    ensures
        best.0 == best_move(player, board@),
        best.1 == value(player, board@),
        -1 <= best.1 <= 1,
        match best.0 {
            Some(m) => {
                &&& outcome(player, board@) is InProgress
                &&& is_best_move(player, board@, m as int)
                &&& best.1 == move_value(player, board@, m as int)
            },
            None => {
                &&& outcome(player, board@) !is InProgress
                &&& best.1 == score(outcome(player, board@))
            },
        },
    decreases vacancies(board@),
{
    match game_state(player, board) {
        GameState::Win => (None, 1),
        GameState::Lose => (None, -1),
        GameState::Draw => (None, 0),
        GameState::InProgress => {
            let mut best: (Option<usize>, i8) = (None, 0);
            for x in 0..9usize
                invariant
                    best.0 == best_below(player, board@, x as int).0,
                    best.1 == best_below(player, board@, x as int).1,
                    -1 <= best.1 <= 1,
            {
                if board.0[x].is_none() {
                    let mut after = *board;
                    after.0[x] = Some(player);
                    proof {
                        assert(after@ =~= placed(board@, x as int, player));
                        lemma_vacant_below_placed(board@, x as int, player, 9);
                    }
                    let worth = -minmax(!player, &after).1;
                    assert(worth == move_value(player, board@, x as int));
                    if best.0.is_none() || worth > best.1 {
                        best = (Some(x), worth);
                    }
                }
            }
            proof {
                lemma_best_below(player, board@, 9);
            }
            best
        },
    }
}

/// Makes the best move for `player` and returns the board after it.
///
/// The game must not be over: a finished game has no move to make. The
/// move goes to an empty cell, and no other cell changes.
pub fn play(player: Player, board: Board) -> (after: Board)
    requires
        outcome(player, board@) is InProgress,
    ensures
        best_move(player, board@) matches Some(m) && is_best_move(player, board@, m as int)
            && after@ == placed(board@, m as int, player),
        forall|j: int| 0 <= j < 9 && (#[trigger] board@[j]) is Some ==> after@[j] == board@[j],
        exists|m: int|
            {
                &&& 0 <= m < 9
                &&& (#[trigger] board@[m]) is None
                &&& after@[m] == Some(player)
                &&& forall|j: int| 0 <= j < 9 && j != m ==> (#[trigger] after@[j]) == board@[j]
            },
{
    let mut after = board;
    let best_play = minmax(player, &board).0.expect("Finished game");
    after.0[best_play] = Some(player);
    assert(board@[best_play as int] is None);
    after
}

/// The value of a position, said without the walk over the cells: a
/// finished game is worth its score, and any other position is worth its
/// best move, which exists.
pub proof fn lemma_value_is_worth_of_best_move(player: Player, board: Board)
    ensures
        outcome(player, board@) !is InProgress ==> value(player, board@) == score(
            outcome(player, board@),
        ),
        outcome(player, board@) is InProgress ==> (best_move(player, board@) matches Some(m)
            && is_best_move(player, board@, m as int) && value(player, board@) == move_value(
            player,
            board@,
            m as int,
        )),
{
    lemma_best_below(player, board@, 9);
}

/// No position has two best moves.
pub proof fn lemma_best_move_is_unique(player: Player, board: Board, a: int, b: int)
    requires
        is_best_move(player, board@, a),
        is_best_move(player, board@, b),
    ensures
        a == b,
{
}

/// On a finished board that not both players have won, what the position
/// is worth to one player is the opposite of what it is worth to the other.
pub proof fn lemma_finished_value_is_opposite(player: Player, board: Board)
    requires
        outcome(player, board@) !is InProgress,
        !(wins(player, board@) && wins(!player, board@)),
    ensures
        outcome(!player, board@) !is InProgress,
        value(player, board@) == -value(!player, board@),
{
}

} // verus!
