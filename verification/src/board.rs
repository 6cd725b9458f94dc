//! The grid and the rules that classify it.

use vstd::prelude::*;
use vstd::string::StringExecFns;
use crate::player::{Player, O, X};

verus! {

/// A cell: empty, or taken by one player.
pub type Tile = Option<Player>;

/// The 3×3 grid, row by row: row `r`, column `c` is cell `3 * r + c`.
///
/// Any nine cells make a board; the rules below classify every one of them,
/// also those that no game of alternating moves can reach.
#[derive(Clone, Copy, PartialEq, Eq, PartialOrd, Ord, Debug)]
pub struct Board(pub [Tile; 9]);

/// How a board stands for the player it is looked at from.
#[derive(Clone, Copy, PartialEq, Eq, PartialOrd, Ord, Debug, Structural)]
pub enum GameState {
    /// The player holds a line.
    Win,
    /// The other player holds a line, and the player does not.
    Lose,
    /// Nobody holds a line and no cell is empty.
    Draw,
    /// Nobody holds a line and a cell is empty.
    InProgress,
}

impl View for Board {
    type V = Seq<Tile>;

    open spec fn view(&self) -> Seq<Tile> {
        self.0@
    }
}

/// `player` holds the three cells `a`, `b` and `c`.
pub open spec fn holds_line(player: Player, cells: Seq<Tile>, a: int, b: int, c: int) -> bool {
    cells[a] == Some(player) && cells[b] == Some(player) && cells[c] == Some(player)
}

/// `player` holds one of the eight lines: three rows, three columns, two
/// diagonals.
pub open spec fn wins(player: Player, cells: Seq<Tile>) -> bool {
    ||| holds_line(player, cells, 0, 1, 2)
    ||| holds_line(player, cells, 3, 4, 5)
    ||| holds_line(player, cells, 6, 7, 8)
    ||| holds_line(player, cells, 0, 3, 6)
    ||| holds_line(player, cells, 1, 4, 7)
    ||| holds_line(player, cells, 2, 5, 8)
    ||| holds_line(player, cells, 0, 4, 8)
    ||| holds_line(player, cells, 2, 4, 6)
}

/// No cell is empty.
pub open spec fn full(cells: Seq<Tile>) -> bool {
    forall|i: int| 0 <= i < 9 ==> (#[trigger] cells[i]) is Some
}

/// Nobody holds a line and no cell is empty.
pub open spec fn drawn(cells: Seq<Tile>) -> bool {
    !wins(X, cells) && !wins(O, cells) && full(cells)
}

/// How `cells` stand for `player`. A win is looked for first, then a loss,
/// then a draw: on a board where both players hold a line, each of them has
/// won.
pub open spec fn outcome(player: Player, cells: Seq<Tile>) -> GameState {
    if wins(player, cells) {
        GameState::Win
    } else if wins(!player, cells) {
        GameState::Lose
    } else if full(cells) {
        GameState::Draw
    } else {
        GameState::InProgress
    }
}

/// Nine empty cells.
pub open spec fn blank() -> Seq<Tile> {
    Seq::new(9, |i: int| None)
}

/// The board on which nobody has played.
pub fn new() -> (board: Board)
    ensures
        board@ == blank(),
{
    Board([None; 9])
}

impl Default for Board {
    /// The board on which nobody has played.
    fn default() -> (board: Board)
        ensures
            board@ == blank(),
    {
        new()
    }
}

/// Whether `player` holds a complete line.
pub fn is_win(player: Player, board: &Board) -> (won: bool)
    ensures
        won == wins(player, board@),
{
    let mut v: [bool; 9] = [false; 9];
    for i in 0..9usize
        invariant
            forall|j: int| 0 <= j < i ==> v@[j] == (board@[j] == Some(player)),
    {
        v[i] = match board.0[i] {
            Some(p) => p == player,
            None => false,
        };
    }
    let h1 = v[0] && v[1] && v[2];
    let h2 = v[3] && v[4] && v[5];
    let h3 = v[6] && v[7] && v[8];
    let v1 = v[0] && v[3] && v[6];
    let v2 = v[1] && v[4] && v[7];
    let v3 = v[2] && v[5] && v[8];
    let d1 = v[0] && v[4] && v[8];
    let d2 = v[2] && v[4] && v[6];
    h1 || h2 || h3 || v1 || v2 || v3 || d1 || d2
}

/// Whether the opponent of `player` holds a complete line.
pub fn is_lose(player: Player, board: &Board) -> (lost: bool)
    ensures
        lost == wins(!player, board@),
{
    is_win(!player, board)
}

/// Whether the game has ended with no winner.
pub fn is_draw(board: &Board) -> (draw: bool)
    ensures
        draw == drawn(board@),
{
    if is_win(X, board) || is_lose(X, board) {
        return false;
    }
    for i in 0..9usize
        invariant
            forall|j: int| 0 <= j < i ==> (#[trigger] board@[j]) is Some,
    {
        if board.0[i].is_none() {
            return false;
        }
    }
    true
}

/// Classifies `board` for `player`.
pub fn game_state(player: Player, board: &Board) -> (state: GameState)
    ensures
        state == outcome(player, board@),
{
    if is_win(player, board) {
        GameState::Win
    } else if is_lose(player, board) {
        GameState::Lose
    } else if is_draw(board) {
        GameState::Draw
    } else {
        GameState::InProgress
    }
}

/// The character that shows a cell in the picture of a board.
pub open spec fn tile_char(tile: Tile) -> char {
    match tile {
        Some(true) => 'X',
        Some(false) => 'O',
        None => ' ',
    }
}

/// What follows cell `i` in the picture of a board: a bar inside a row, a
/// rule of five dashes on a line of its own under the first two rows, and
/// an empty line under the last.
pub open spec fn tile_separator(i: int) -> Seq<char> {
    if i % 3 != 2 {
        seq!['|']
    } else if i != 8 {
        seq!['\n', '-', '-', '-', '-', '-', '\n']
    } else {
        seq!['\n', '\n']
    }
}

/// The picture of the first `n` cells.
pub open spec fn picture_below(cells: Seq<Tile>, n: int) -> Seq<char>
    decreases n,
{
    if n <= 0 {
        Seq::empty()
    } else {
        picture_below(cells, n - 1).push(tile_char(cells[n - 1])) + tile_separator(n - 1)
    }
}

/// The picture of a board: each cell followed by its separator.
pub open spec fn picture(cells: Seq<Tile>) -> Seq<char> {
    picture_below(cells, 9)
}

/// Draws `board` as text: three rows of cells with bars between the cells,
/// rules between the rows, and an empty line at the end.
pub fn render(board: &Board) -> (text: String)
    ensures
        text@ == picture(board@),
{
    let mut text = String::new();
    for i in 0..9usize
        invariant
            text@ == picture_below(board@, i as int),
    {
        proof {
            reveal_strlit("X");
            reveal_strlit("O");
            reveal_strlit(" ");
            reveal_strlit("|");
            reveal_strlit("\n-----\n");
            reveal_strlit("\n\n");
        }
        let mark = match board.0[i] {
            Some(true) => "X",
            Some(false) => "O",
            None => " ",
        };
        text.append(mark);
        if i % 3 != 2 {
            text.append("|");
        } else if i != 8 {
            text.append("\n-----\n");
        } else {
            text.append("\n\n");
        }
    }
    text
}

/// The character that shows a cell in the rows of a board.
pub open spec fn row_char(tile: Tile) -> char {
    match tile {
        Some(true) => 'X',
        Some(false) => 'O',
        None => '_',
    }
}

/// The rows of the first `n` cells: each cell followed by a bar inside a
/// row, and by a line break at the end of one.
pub open spec fn rows_below(cells: Seq<Tile>, n: int) -> Seq<char>
    decreases n,
{
    if n <= 0 {
        Seq::empty()
    } else {
        rows_below(cells, n - 1).push(row_char(cells[n - 1])).push(
            if (n - 1) % 3 == 2 {
                '\n'
            } else {
                '|'
            },
        )
    }
}

impl Board {
    /// Writes the board as three lines, one for each row, with bars between
    /// the cells and `_` for an empty cell.
    pub fn to_text(&self) -> (text: String)
        ensures
            text@ == rows_below(self@, 9),
    {
        let mut text = String::new();
        for i in 0..9usize
            invariant
                text@ == rows_below(self@, i as int),
        {
            proof {
                reveal_strlit("X");
                reveal_strlit("O");
                reveal_strlit("_");
                reveal_strlit("|");
                reveal_strlit("\n");
            }
            let mark = match self.0[i] {
                Some(true) => "X",
                Some(false) => "O",
                None => "_",
            };
            text.append(mark);
            if i % 3 == 2 {
                text.append("\n");
            } else {
                text.append("|");
            }
        }
        text
    }
}

/// A board on which nobody holds a line and a cell is empty is in progress
/// for both players.
pub proof fn lemma_open_board_is_in_progress(player: Player, board: Board)
    requires
        !wins(X, board@),
        !wins(O, board@),
        !full(board@),
    ensures
        outcome(player, board@) == GameState::InProgress,
{
}

/// A board on which `player` holds a line is won for `player`.
pub proof fn lemma_line_is_win(player: Player, board: Board)
    requires
        wins(player, board@),
    ensures
        outcome(player, board@) == GameState::Win,
{
}

/// A board on which `player` holds a line, and the opponent none, is lost
/// for the opponent.
pub proof fn lemma_line_is_loss_for_opponent(player: Player, board: Board)
    requires
        wins(player, board@),
        !wins(!player, board@),
    ensures
        outcome(!player, board@) == GameState::Lose,
{
}

/// Unless both players hold a line, a board is won for one player exactly
/// when it is lost for the other.
pub proof fn lemma_win_mirrors_loss(player: Player, board: Board)
    requires
        !(wins(player, board@) && wins(!player, board@)),
    ensures
        outcome(player, board@) == GameState::Win <==> outcome(!player, board@)
            == GameState::Lose,
{
}

/// A board with no empty cell on which nobody holds a line is drawn, for
/// both players.
pub proof fn lemma_full_board_without_line_is_draw(player: Player, board: Board)
    requires
        full(board@),
        !wins(X, board@),
        !wins(O, board@),
    ensures
        outcome(player, board@) == GameState::Draw,
        drawn(board@),
{
}

} // verus!
