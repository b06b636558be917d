use chess_gui::grid::{board_grid, square_view};
use chess_gui::pieces::{engine_to_board, piece_unicode, Board, ColoredPiece, Piece, Side};
use chess_gui::state::AppState;

const KINDS: [Piece; 6] = [
    Piece::Pawn,
    Piece::Knight,
    Piece::Bishop,
    Piece::Rook,
    Piece::Queen,
    Piece::King,
];

fn opening() -> Board {
    let back: [i8; 8] = [4, 2, 3, 6, 5, 3, 2, 4];
    let mut board: Board = [0; 64];
    for col in 0..8 {
        board[col] = back[col];
        board[8 + col] = 1;
        board[48 + col] = -1;
        board[56 + col] = -back[col];
    }
    board
}

#[test]
fn codes_become_pieces() {
    let mut codes: Board = [0; 64];
    for k in 0..6 {
        codes[k] = k as i8 + 1;
        codes[63 - k] = -(k as i8 + 1);
    }
    let board = engine_to_board(codes);
    for k in 0..6 {
        assert_eq!(board[0][k], Some(ColoredPiece { piece: KINDS[k], side: Side::White }));
        assert_eq!(board[7][7 - k], Some(ColoredPiece { piece: KINDS[k], side: Side::Black }));
    }
    for row in 1..7 {
        for col in 0..8 {
            assert_eq!(board[row][col], None);
        }
    }
    assert_eq!(board[0][6], None);
    assert_eq!(board[7][0], None);
}

#[test]
fn codes_lie_row_by_row() {
    let mut codes: Board = [0; 64];
    codes[10] = 5;
    let board = engine_to_board(codes);
    assert_eq!(board[1][2], Some(ColoredPiece { piece: Piece::Queen, side: Side::White }));
    assert_eq!(board[2][1], None);
}

#[test]
fn other_codes_are_empty_squares() {
    let mut codes: Board = [0; 64];
    codes[0] = 7;
    codes[1] = -7;
    codes[2] = i8::MIN;
    codes[3] = i8::MAX;
    let board = engine_to_board(codes);
    for col in 0..8 {
        assert_eq!(board[0][col], None);
    }
}

#[test]
fn negated_codes_change_sides() {
    let mut codes = opening();
    let board = engine_to_board(codes);
    for code in codes.iter_mut() {
        *code = -*code;
    }
    let swapped = engine_to_board(codes);
    for row in 0..8 {
        for col in 0..8 {
            match (board[row][col], swapped[row][col]) {
                (Some(a), Some(b)) => {
                    assert_eq!(a.piece, b.piece);
                    assert_ne!(a.side, b.side);
                }
                (a, b) => assert_eq!(a, b),
            }
        }
    }
}

#[test]
fn every_piece_has_its_glyph() {
    let white = ["\u{2659}", "\u{2658}", "\u{2657}", "\u{2656}", "\u{2655}", "\u{2654}"];
    let black = ["\u{265F}\u{FE0E}", "\u{265E}", "\u{265D}", "\u{265C}", "\u{265B}", "\u{265A}"];
    for k in 0..6 {
        let w = ColoredPiece { piece: KINDS[k], side: Side::White };
        let b = ColoredPiece { piece: KINDS[k], side: Side::Black };
        assert_eq!(piece_unicode(w, false), white[k]);
        assert_eq!(piece_unicode(b, false), black[k]);
        assert_eq!(piece_unicode(w, true), black[k]);
        assert_eq!(piece_unicode(b, true), black[k]);
    }
}

#[test]
fn grid_holds_every_square_once() {
    let state = AppState::new(opening());
    let cells = board_grid(&state);
    assert_eq!(cells.len(), 64);
    let mut taken = [[false; 8]; 8];
    for (i, cell) in cells.iter().enumerate() {
        assert_eq!((cell.row, cell.col), (i / 8, i % 8));
        assert!(!taken[cell.draw_row][cell.draw_col]);
        taken[cell.draw_row][cell.draw_col] = true;
    }
}

#[test]
fn rotating_turns_the_board_to_white() {
    let mut state = AppState::new(opening());
    let cell = square_view(&state, 0, 0);
    assert_eq!((cell.draw_row, cell.draw_col), (0, 0));
    let cell = square_view(&state, 2, 5);
    assert_eq!((cell.draw_row, cell.draw_col), (2, 5));
    state.rotate();
    let cell = square_view(&state, 0, 0);
    assert_eq!((cell.draw_row, cell.draw_col), (7, 7));
    let cell = square_view(&state, 2, 5);
    assert_eq!((cell.draw_row, cell.draw_col), (5, 2));
    state.rotate();
    let cell = square_view(&state, 2, 5);
    assert_eq!((cell.draw_row, cell.draw_col), (2, 5));
}

#[test]
fn home_ranks_lie_before_their_side() {
    let mut state = AppState::new(opening());
    for rotated in [true, false] {
        state.rotated = rotated;
        let (white, black) = if rotated { (7, 0) } else { (0, 7) };
        for cell in board_grid(&state) {
            if cell.row == 0 {
                assert_eq!(cell.draw_row, white);
            }
            if cell.row == 7 {
                assert_eq!(cell.draw_row, black);
            }
        }
    }
}

#[test]
fn squares_alternate_and_highlights_take_blue() {
    let mut state = AppState::new(opening());
    let light = square_view(&state, 0, 0);
    assert_eq!((light.red, light.green, light.blue), (255, 255, 255));
    let dark = square_view(&state, 0, 1);
    assert_eq!((dark.red, dark.green, dark.blue), (205, 205, 205));
    state.square_tags[0] = 2;
    state.square_tags[1] = 1;
    state.square_tags[2] = -1;
    state.square_tags[3] = 2;
    let cells = board_grid(&state);
    assert_eq!((cells[0].red, cells[0].green, cells[0].blue), (255, 255, 230));
    assert_eq!((cells[1].red, cells[1].green, cells[1].blue), (205, 205, 155));
    assert_eq!((cells[2].red, cells[2].green, cells[2].blue), (255, 255, 255));
    assert_eq!((cells[3].red, cells[3].green, cells[3].blue), (205, 205, 180));
}

#[test]
fn labels_show_the_pieces() {
    let mut state = AppState::new(opening());
    let cells = board_grid(&state);
    assert_eq!(cells[3].label, "\u{2654}");
    assert_eq!(cells[59].label, "\u{265A}");
    assert_eq!(cells[8].label, "\u{2659}");
    assert_eq!(cells[20].label, " ");
    state.use_solid_unicode = true;
    let cells = board_grid(&state);
    assert_eq!(cells[3].label, "\u{265A}");
    assert_eq!(cells[8].label, "\u{265F}\u{FE0E}");
    assert_eq!(cells[20].label, " ");
}
