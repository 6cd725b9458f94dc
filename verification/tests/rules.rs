use tictactoe::board::{game_state, is_draw, is_lose, is_win, new, Board, GameState, Tile};
use tictactoe::player::{Player, O, X};

const E: Tile = None;
const PX: Tile = Some(X);
const PO: Tile = Some(O);

const LINES: [[usize; 3]; 8] = [
    [0, 1, 2],
    [3, 4, 5],
    [6, 7, 8],
    [0, 3, 6],
    [1, 4, 7],
    [2, 5, 8],
    [0, 4, 8],
    [2, 4, 6],
];

fn with_line(player: Player, line: [usize; 3]) -> Board {
    let mut board = new();
    for i in line {
        board.0[i] = Some(player);
    }
    board
}

#[test]
fn players_are_each_others_negation() {
    assert_eq!(X, !O);
    assert_eq!(O, !X);
    assert_ne!(X, O);
}

#[test]
fn new_board_has_nine_empty_cells() {
    let board = new();
    assert_eq!(board.0.len(), 9);
    assert_eq!(board.0, [E; 9]);
}

#[test]
fn default_board_is_the_new_board() {
    assert_eq!(Board::default(), new());
}

#[test]
fn boards_compare_by_their_cells() {
    let mut a = new();
    let b = a;
    assert_eq!(a, b);
    a.0[4] = PX;
    assert_ne!(a, b);
    assert_eq!(b, new());
    let c = a.clone();
    assert_eq!(a, c);
}

#[test]
fn every_line_wins_for_its_holder() {
    for line in LINES {
        for player in [X, O] {
            let board = with_line(player, line);
            assert!(is_win(player, &board));
            assert!(!is_win(!player, &board));
            assert!(is_lose(!player, &board));
            assert!(!is_lose(player, &board));
        }
    }
}

#[test]
fn two_in_a_line_do_not_win() {
    for line in LINES {
        for missing in 0..3 {
            let mut board = with_line(X, line);
            board.0[line[missing]] = E;
            assert!(!is_win(X, &board));
            board.0[line[missing]] = PO;
            assert!(!is_win(X, &board));
            assert!(!is_win(O, &board));
        }
    }
}

#[test]
fn three_cells_off_a_line_do_not_win() {
    let board = Board([PX, PX, E, E, E, PX, E, E, E]);
    assert!(!is_win(X, &board));
    let board = Board([E, PO, E, PO, E, PO, E, E, E]);
    assert!(!is_win(O, &board));
}

#[test]
fn empty_board_is_won_by_nobody() {
    let board = new();
    assert!(!is_win(X, &board));
    assert!(!is_win(O, &board));
    assert!(!is_lose(X, &board));
    assert!(!is_lose(O, &board));
    assert!(!is_draw(&board));
}

#[test]
fn full_board_without_line_is_a_draw() {
    let board = Board([PX, PO, PX, PX, PO, PO, PO, PX, PX]);
    assert!(!is_win(X, &board));
    assert!(!is_win(O, &board));
    assert!(is_draw(&board));
    assert_eq!(game_state(X, &board), GameState::Draw);
    assert_eq!(game_state(O, &board), GameState::Draw);
}

#[test]
fn full_board_with_line_is_no_draw() {
    let board = Board([PX, PX, PX, PO, PO, PX, PX, PO, PO]);
    assert!(is_win(X, &board));
    assert!(!is_draw(&board));
    assert_eq!(game_state(X, &board), GameState::Win);
    assert_eq!(game_state(O, &board), GameState::Lose);
}

#[test]
fn board_with_an_empty_cell_is_no_draw() {
    let board = Board([PX, PO, PX, PX, PO, PO, PO, PX, E]);
    assert!(!is_draw(&board));
    assert_eq!(game_state(X, &board), GameState::InProgress);
    assert_eq!(game_state(O, &board), GameState::InProgress);
}

#[test]
fn open_board_without_line_is_in_progress() {
    let boards = [
        new(),
        Board([PX, E, E, E, E, E, E, E, E]),
        Board([PX, PO, E, E, PX, E, E, E, PO]),
        Board([PX, PX, E, PO, PO, E, E, E, E]),
        Board([PX, PO, PX, PO, PX, PO, E, E, PO]),
    ];
    for board in boards {
        assert_eq!(game_state(X, &board), GameState::InProgress);
        assert_eq!(game_state(O, &board), GameState::InProgress);
    }
}

#[test]
fn line_on_an_open_board_ends_the_game() {
    let board = Board([PX, PX, PX, PO, PO, E, E, E, E]);
    assert_eq!(game_state(X, &board), GameState::Win);
    assert_eq!(game_state(O, &board), GameState::Lose);
    let board = Board([PX, PX, E, PO, PO, PO, PX, E, E]);
    assert_eq!(game_state(O, &board), GameState::Win);
    assert_eq!(game_state(X, &board), GameState::Lose);
}

#[test]
fn win_for_one_is_loss_for_the_other() {
    for line in LINES {
        for player in [X, O] {
            let board = with_line(player, line);
            assert_eq!(game_state(player, &board), GameState::Win);
            assert_eq!(game_state(!player, &board), GameState::Lose);
        }
    }
}

#[test]
fn own_line_is_looked_for_first() {
    let board = Board([PX, PX, PX, PO, PO, PO, E, E, E]);
    assert!(is_win(X, &board));
    assert!(is_win(O, &board));
    assert_eq!(game_state(X, &board), GameState::Win);
    assert_eq!(game_state(O, &board), GameState::Win);
    let board = Board([PX, PX, PX, PO, PO, PO, PX, PO, PX]);
    assert!(!is_draw(&board));
    assert_eq!(game_state(X, &board), GameState::Win);
    assert_eq!(game_state(O, &board), GameState::Win);
}

#[test]
fn classifying_leaves_the_board_alone() {
    let board = Board([PX, PO, E, E, PX, E, E, E, PO]);
    let before = board;
    let first = game_state(X, &board);
    let second = game_state(X, &board);
    assert_eq!(first, second);
    assert_eq!(board, before);
}

#[test]
fn states_are_distinct() {
    let all = [GameState::Win, GameState::Lose, GameState::Draw, GameState::InProgress];
    for (i, a) in all.iter().enumerate() {
        for (j, b) in all.iter().enumerate() {
            assert_eq!(a == b, i == j);
        }
    }
}
