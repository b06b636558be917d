//! Pieces, the board as the window shows it, and the glyphs it is drawn with.

use vstd::prelude::*;

verus! {

/// Squares on one side of the board.
pub const BOARD_SIZE: usize = 8;

/// One signed byte for each square, row by row from White's home rank: piece codes as the engine
/// keeps them, or the tags by which squares are highlighted.
pub type Board = [i8; 64];

#[derive(Clone, Copy, Debug, PartialEq, Eq, Structural)]
pub enum Piece {
    Pawn,
    Knight,
    Bishop,
    Rook,
    Queen,
    King,
}

#[derive(Clone, Copy, Debug, PartialEq, Eq, Structural)]
pub enum Side {
    White,
    Black,
}

#[derive(Clone, Copy, Debug, PartialEq, Eq, Structural)]
pub struct ColoredPiece {
    pub piece: Piece,
    pub side: Side,
}

/// What stands on each square, by row and column.
pub type BoardView = [[Option<ColoredPiece>; BOARD_SIZE]; BOARD_SIZE];

/// The engine's number for a kind of piece.
pub open spec fn kind_code(piece: Piece) -> int {
    match piece {
        Piece::Pawn => 1,
        Piece::Knight => 2,
        Piece::Bishop => 3,
        Piece::Rook => 4,
        Piece::Queen => 5,
        Piece::King => 6,
    }
}

/// The engine's code for a piece: its kind for White, negated for Black.
pub open spec fn piece_code(piece: ColoredPiece) -> int {
    match piece.side {
        Side::White => kind_code(piece.piece),
        Side::Black => -kind_code(piece.piece),
    }
}

/// The kind of piece that a number from 1 to 6 stands for.
pub open spec fn kind_of(code: int) -> Piece {
    if code == 1 {
        Piece::Pawn
    } else if code == 2 {
        Piece::Knight
    } else if code == 3 {
        Piece::Bishop
    } else if code == 4 {
        Piece::Rook
    } else if code == 5 {
        Piece::Queen
    } else {
        Piece::King
    }
}

/// What a square with the given code holds; every code beyond six in size,
/// like zero, is an empty square.
pub open spec fn piece_of(code: int) -> Option<ColoredPiece> {
    if 1 <= code <= 6 {
        Some(ColoredPiece { piece: kind_of(code), side: Side::White })
    } else if -6 <= code <= -1 {
        Some(ColoredPiece { piece: kind_of(-code), side: Side::Black })
    } else {
        None
    }
}

/// The squares of a board view in one row-by-row sequence.
pub open spec fn squares(board: BoardView) -> Seq<Option<ColoredPiece>> {
    Seq::new(64, |i: int| board@[i / 8]@[i % 8])
}

/// What the engine's codes put on each square.
pub open spec fn decoded(codes: Seq<i8>) -> Seq<Option<ColoredPiece>> {
    Seq::new(64, |i: int| piece_of(codes[i] as int))
}

/// Reads the engine's codes into what the window shows.
pub fn engine_to_board(engine_board: Board) -> (board: BoardView)
    ensures
        squares(board) == decoded(engine_board@),
{
    let mut board: BoardView = [[None; BOARD_SIZE]; BOARD_SIZE];
    let mut i: usize = 0;
    while i < 64
        invariant
            i <= 64,
            forall|k: int| 0 <= k < i ==> #[trigger] squares(board)[k] == piece_of(engine_board@[k] as int),
            forall|k: int| i <= k < 64 ==> (#[trigger] squares(board)[k]) is None,
        decreases 64 - i,
    {
        let ghost before = squares(board);
        let val: i8 = engine_board[i];
        let piece_side: Option<(Piece, Side)> = match val {
            1 => Some((Piece::Pawn, Side::White)),
            2 => Some((Piece::Knight, Side::White)),
            3 => Some((Piece::Bishop, Side::White)),
            4 => Some((Piece::Rook, Side::White)),
            5 => Some((Piece::Queen, Side::White)),
            6 => Some((Piece::King, Side::White)),
            -1 => Some((Piece::Pawn, Side::Black)),
            -2 => Some((Piece::Knight, Side::Black)),
            -3 => Some((Piece::Bishop, Side::Black)),
            -4 => Some((Piece::Rook, Side::Black)),
            -5 => Some((Piece::Queen, Side::Black)),
            -6 => Some((Piece::King, Side::Black)),
            _ => None,
        };
        if let Some((piece, side)) = piece_side {
            board[i / BOARD_SIZE][i % BOARD_SIZE] = Some(ColoredPiece { piece, side });
        }
        assert(squares(board) =~= before.update(i as int, piece_of(val as int)));
        i = i + 1;
    }
    board
}

/// The characters that a piece of the given kind and side is drawn with.
/// The black pawn carries a selector that asks for its text form.
pub open spec fn glyph(piece: Piece, side: Side) -> Seq<char> {
    match (piece, side) {
        (Piece::King, Side::White) => seq!['\u{2654}'],
        (Piece::Queen, Side::White) => seq!['\u{2655}'],
        (Piece::Rook, Side::White) => seq!['\u{2656}'],
        (Piece::Bishop, Side::White) => seq!['\u{2657}'],
        (Piece::Knight, Side::White) => seq!['\u{2658}'],
        (Piece::Pawn, Side::White) => seq!['\u{2659}'],
        (Piece::King, Side::Black) => seq!['\u{265A}'],
        (Piece::Queen, Side::Black) => seq!['\u{265B}'],
        (Piece::Rook, Side::Black) => seq!['\u{265C}'],
        (Piece::Bishop, Side::Black) => seq!['\u{265D}'],
        (Piece::Knight, Side::Black) => seq!['\u{265E}'],
        (Piece::Pawn, Side::Black) => seq!['\u{265F}', '\u{FE0E}'],
    }
}

/// How a piece is drawn: with its own glyph, or with the black one where solid
/// pieces are asked for.
pub open spec fn drawn_as(piece: ColoredPiece, solid: bool) -> Seq<char> {
    glyph(piece.piece, if solid { Side::Black } else { piece.side })
}

/// The text a piece is drawn with. When `solid` is true, always the black glyph.
pub fn piece_unicode(piece: ColoredPiece, solid: bool) -> (text: &'static str)
    ensures
        text@ == drawn_as(piece, solid),
{
    let effective_side = if solid { Side::Black } else { piece.side };

    proof {
        reveal_strlit("♔");
        reveal_strlit("♕");
        reveal_strlit("♖");
        reveal_strlit("♗");
        reveal_strlit("♘");
        reveal_strlit("♙");
        reveal_strlit("♚");
        reveal_strlit("♛");
        reveal_strlit("♜");
        reveal_strlit("♝");
        reveal_strlit("♞");
        reveal_strlit("♟︎");
    }
    match (piece.piece, effective_side) {
        (Piece::King, Side::White) => "♔",
        (Piece::Queen, Side::White) => "♕",
        (Piece::Rook, Side::White) => "♖",
        (Piece::Bishop, Side::White) => "♗",
        (Piece::Knight, Side::White) => "♘",
        (Piece::Pawn, Side::White) => "♙",
        (Piece::King, Side::Black) => "♚",
        (Piece::Queen, Side::Black) => "♛",
        (Piece::Rook, Side::Black) => "♜",
        (Piece::Bishop, Side::Black) => "♝",
        (Piece::Knight, Side::Black) => "♞",
        (Piece::Pawn, Side::Black) => "♟︎",
    }
}

/// Codes and pieces match one to one: reading a piece's code gives the piece
/// back, and a code that reads as a piece is that piece's code.
pub proof fn law_codes_match_pieces(piece: ColoredPiece, code: int)
    ensures
        piece_of(piece_code(piece)) == Some(piece),
        piece_of(code) is Some ==> piece_code(piece_of(code)->0) == code,
{
}

/// Negating a code turns the piece over to the other side and leaves an empty
/// square empty.
pub proof fn law_negated_code_changes_side(code: int)
    ensures
        piece_of(code) is None <==> piece_of(-code) is None,
        piece_of(code) is Some ==> {
            &&& piece_of(-code)->0.piece == piece_of(code)->0.piece
            &&& piece_of(-code)->0.side != piece_of(code)->0.side
        },
{
}

/// Two pieces share a glyph only if they are the same piece.
pub proof fn law_glyphs_tell_pieces_apart(a: ColoredPiece, b: ColoredPiece)
    ensures
        drawn_as(a, false) == drawn_as(b, false) ==> a == b,
{
    if drawn_as(a, false) == drawn_as(b, false) {
        assert(drawn_as(a, false)[0] == drawn_as(b, false)[0]);
    }
}

/// With solid pieces the side no longer shows: pieces share a glyph exactly if
/// they are of one kind, and it is the glyph of the black piece.
pub proof fn law_solid_glyphs_show_the_kind_alone(a: ColoredPiece, b: ColoredPiece)
    ensures
        drawn_as(a, true) == drawn_as(b, true) <==> a.piece == b.piece,
        drawn_as(a, true) == drawn_as(
            ColoredPiece { piece: a.piece, side: Side::Black },
            false,
        ),
{
    if drawn_as(a, true) == drawn_as(b, true) {
        assert(drawn_as(a, true)[0] == drawn_as(b, true)[0]);
    }
}

/// A code stands for a piece exactly if its size is the rank of the piece's kind
/// in the order pawn, knight, bishop, rook, queen, king, and its sign is plus for
/// White and minus for Black. A code stands for no piece exactly if it is zero or
/// beyond six in size.
pub proof fn law_codes_by_size_and_sign(code: int, p: ColoredPiece)
    ensures
        piece_of(code) == Some(p) <==> code == (match p.piece {
            Piece::Pawn => 1int,
            Piece::Knight => 2int,
            Piece::Bishop => 3int,
            Piece::Rook => 4int,
            Piece::Queen => 5int,
            Piece::King => 6int,
        }) * (if p.side == Side::White {
            1int
        } else {
            -1int
        }),
        piece_of(code) is None <==> code == 0 || code > 6 || code < -6,
        piece_code(p) == (match p.piece {
            Piece::Pawn => 1int,
            Piece::Knight => 2int,
            Piece::Bishop => 3int,
            Piece::Rook => 4int,
            Piece::Queen => 5int,
            Piece::King => 6int,
        }) * (if p.side == Side::White {
            1int
        } else {
            -1int
        }),
{
}

/// Every square of a board that was read from codes shows what its own code, and
/// no other, stands for: a piece exactly if the code is that piece's, and nothing
/// exactly if the code is no piece's.
pub proof fn law_every_square_shows_its_code(
    board: BoardView,
    codes: Seq<i8>,
    row: int,
    col: int,
    p: ColoredPiece,
)
    requires
        squares(board) == decoded(codes),
        codes.len() == 64,
        0 <= row < 8,
        0 <= col < 8,
    ensures
        board@[row]@[col] == Some(p) <==> codes[row * 8 + col] == (match p.piece {
            Piece::Pawn => 1int,
            Piece::Knight => 2int,
            Piece::Bishop => 3int,
            Piece::Rook => 4int,
            Piece::Queen => 5int,
            Piece::King => 6int,
        }) * (if p.side == Side::White {
            1int
        } else {
            -1int
        }),
        board@[row]@[col] is None <==> {
            let code = codes[row * 8 + col];
            code == 0 || code > 6 || code < -6
        },
{
    let i = row * 8 + col;
    assert(squares(board)[i] == decoded(codes)[i]);
    assert(i / 8 == row && i % 8 == col);
}

/// Counted row by row, the square at a row and column of a board is the one that
/// many rows of eight and that many squares further on.
pub proof fn law_squares_run_row_by_row(board: BoardView, row: int, col: int)
    requires
        0 <= row < 8,
        0 <= col < 8,
    ensures
        squares(board).len() == 64,
        squares(board)[row * 8 + col] == board@[row]@[col],
{
    let i = row * 8 + col;
    assert(i / 8 == row && i % 8 == col);
}

/// Square by square, decoding turns a code into the piece that it stands for,
/// wherever the square lies.
pub proof fn law_decoding_goes_square_by_square(codes: Seq<i8>, i: int, p: ColoredPiece)
    requires
        0 <= i < 64,
    ensures
        decoded(codes).len() == 64,
        decoded(codes)[i] == Some(p) <==> codes[i] == (match p.piece {
            Piece::Pawn => 1int,
            Piece::Knight => 2int,
            Piece::Bishop => 3int,
            Piece::Rook => 4int,
            Piece::Queen => 5int,
            Piece::King => 6int,
        }) * (if p.side == Side::White {
            1int
        } else {
            -1int
        }),
        decoded(codes)[i] is None <==> codes[i] == 0 || codes[i] > 6 || codes[i] < -6,
{
}

/// The glyphs are the chess symbols of Unicode, which run from king to pawn, White's
/// first: the drawing starts with the symbol of the piece's kind, six further on
/// where the piece is black or drawn solid. Only the black pawn is followed by
/// anything, the text selector.
pub proof fn law_glyphs_are_the_chess_symbols(p: ColoredPiece, solid: bool)
    ensures
        ({
            let text = drawn_as(p, solid);
            let black = solid || p.side == Side::Black;
            &&& text.len() == if black && p.piece == Piece::Pawn {
                2nat
            } else {
                1nat
            }
            &&& text[0] as int == 0x2654 + (match p.piece {
                Piece::King => 0int,
                Piece::Queen => 1int,
                Piece::Rook => 2int,
                Piece::Bishop => 3int,
                Piece::Knight => 4int,
                Piece::Pawn => 5int,
            }) + (if black {
                6int
            } else {
                0int
            })
            &&& text.len() == 2 ==> text[1] as int == 0xFE0E
        }),
{
}

} // verus!
