//! The board as it is drawn: where each square goes, its colour and its label.

use vstd::prelude::*;
use crate::model::{square_index, AppModel};
use crate::pieces::{drawn_as, piece_unicode, BOARD_SIZE};
use crate::state::AppState;

verus! {

/// One square as it is drawn.
#[derive(Clone, Copy, Debug)]
pub struct SquareView {
    /// Which square of the board it is.
    pub row: usize,
    pub col: usize,
    /// The cell of the grid that it is drawn in, from the top and from the left.
    pub draw_row: usize,
    pub draw_col: usize,
    /// Its colour.
    pub red: u8,
    pub green: u8,
    pub blue: u8,
    /// What is written on it.
    pub label: &'static str,
}

/// The cell of the grid, by row and column, that a square is drawn in. Row 0 is
/// White's home rank: it lies at the bottom where White looks at the board.
pub open spec fn draw_cell(rotated: bool, row: int, col: int) -> (int, int) {
    if rotated {
        (7 - row, 7 - col)
    } else {
        (row, col)
    }
}

/// How much a tag takes from the blue of a square: something for the last move,
/// more for a possible target.
pub open spec fn tag_shade(tag: i8) -> int {
    if tag == 2 {
        25
    } else if tag == 1 {
        50
    } else {
        0
    }
}

/// How bright the squares of one shade of the chequered board are.
pub open spec fn base_tone(row: int, col: int) -> int {
    if (row + col) % 2 == 0 {
        255
    } else {
        205
    }
}

/// What is written on a square: the piece on it, or a blank.
pub open spec fn square_label(model: AppModel, row: int, col: int) -> Seq<char> {
    match model.board[square_index(row, col)] {
        Some(piece) => drawn_as(piece, model.use_solid_unicode),
        None => seq![' '],
    }
}

impl SquareView {
    /// Whether this is how the square at `row` and `col` of a state is drawn.
    pub open spec fn shows(self, model: AppModel, row: int, col: int) -> bool {
        let tag = model.square_tags[square_index(row, col)];
        &&& self.row == row
        &&& self.col == col
        &&& (self.draw_row as int, self.draw_col as int) == draw_cell(model.rotated, row, col)
        &&& self.red == base_tone(row, col)
        &&& self.green == base_tone(row, col)
        &&& self.blue == base_tone(row, col) - tag_shade(tag)
        &&& self.label@ == square_label(model, row, col)
    }
}

/// How one square is drawn.
pub fn square_view(state: &AppState, row: usize, col: usize) -> (square: SquareView)
    requires
        row < 8,
        col < 8,
    ensures
        square.shows(state@, row as int, col as int),
{
    let idx: usize = row * BOARD_SIZE + col;
    assert(state@.board[idx as int] == state.board@[row as int]@[col as int]);

    let (draw_row, draw_col): (usize, usize) = if state.rotated {
        (BOARD_SIZE - 1 - row, BOARD_SIZE - 1 - col)
    } else {
        (row, col)
    };

    let shade: u8 = match state.square_tags[idx] {
        2 => 25,
        1 => 50,
        _ => 0,
    };

    let tone: u8 = if (row + col) % 2 == 0 { 255 } else { 205 };

    proof {
        reveal_strlit(" ");
        assert(" "@ =~= seq![' ']);
    }
    let label: &'static str = match state.board[row][col] {
        Some(piece) => piece_unicode(piece, state.use_solid_unicode),
        None => " ",
    };

    SquareView { row, col, draw_row, draw_col, red: tone, green: tone, blue: tone - shade, label }
}

/// All squares of the board, row by row.
pub fn board_grid(state: &AppState) -> (cells: Vec<SquareView>)
    ensures
        cells@.len() == 64,
        forall|row: int, col: int|
            0 <= row < 8 && 0 <= col < 8 ==> (#[trigger] cells@[square_index(row, col)]).shows(
                state@,
                row,
                col,
            ),
{
    let mut cells: Vec<SquareView> = Vec::with_capacity(BOARD_SIZE * BOARD_SIZE);
    let mut row: usize = 0;
    while row < BOARD_SIZE
        invariant
            row <= 8,
            cells@.len() == row * 8,
            forall|r: int, c: int|
                0 <= r < row && 0 <= c < 8 ==> (#[trigger] cells@[square_index(r, c)]).shows(
                    state@,
                    r,
                    c,
                ),
        decreases BOARD_SIZE - row,
    {
        let mut col: usize = 0;
        while col < BOARD_SIZE
            invariant
                row < 8,
                col <= 8,
                cells@.len() == row * 8 + col,
                forall|r: int, c: int|
                    0 <= c < 8 && (0 <= r < row || r == row && c < col) ==> (
                    #[trigger] cells@[square_index(r, c)]).shows(state@, r, c),
            decreases BOARD_SIZE - col,
        {
            cells.push(square_view(state, row, col));
            col = col + 1;
        }
        row = row + 1;
    }
    cells
}

/// Every square has a cell of its own inside the grid.
pub proof fn law_squares_have_cells_of_their_own(
    rotated: bool,
    row: int,
    col: int,
    other_row: int,
    other_col: int,
)
    requires
        0 <= row < 8,
        0 <= col < 8,
        0 <= other_row < 8,
        0 <= other_col < 8,
    ensures
        0 <= draw_cell(rotated, row, col).0 < 8,
        0 <= draw_cell(rotated, row, col).1 < 8,
        draw_cell(rotated, row, col) == draw_cell(rotated, other_row, other_col) ==> row
            == other_row && col == other_col,
{
}

/// A rotated board is drawn from White's perspective, with White's home rank at
/// the bottom and Black's at the top; otherwise it is drawn from Black's.
pub proof fn law_rotated_board_is_seen_by_white(
    white_home: SquareView,
    black_home: SquareView,
    model: AppModel,
    col: int,
)
    requires
        0 <= col < 8,
        white_home.shows(model, 0, col),
        black_home.shows(model, 7, col),
    ensures
        model.rotated ==> white_home.draw_row == 7 && black_home.draw_row == 0,
        !model.rotated ==> white_home.draw_row == 0 && black_home.draw_row == 7,
{
}

/// Rotating turns the board around its centre: each square moves to the cell
/// opposite.
pub proof fn law_rotating_turns_the_board_around(rotated: bool, row: int, col: int)
    ensures
        draw_cell(!rotated, row, col).0 == 7 - draw_cell(rotated, row, col).0,
        draw_cell(!rotated, row, col).1 == 7 - draw_cell(rotated, row, col).1,
{
}

/// Squares next to each other differ in brightness, whatever is highlighted and
/// whichever way round the board is drawn.
pub proof fn law_neighbours_differ(a: SquareView, b: SquareView, model: AppModel, row: int, col: int)
    requires
        0 <= row < 8,
        0 <= col < 8,
        a.shows(model, row, col),
        b.shows(model, row + 1, col) || b.shows(model, row, col + 1),
    ensures
        a.red != b.red,
        a.green != b.green,
{
}

/// Of a square's colour only the blue depends on its tag: it is full where
/// nothing is highlighted, and differs between the last move and a target.
pub proof fn law_highlights_show_in_blue(
    a: SquareView,
    b: SquareView,
    m: AppModel,
    n: AppModel,
    row: int,
    col: int,
)
    requires
        0 <= row < 8,
        0 <= col < 8,
        a.shows(m, row, col),
        b.shows(n, row, col),
    ensures
        a.red == b.red,
        a.green == b.green,
        a.blue == b.blue <==> tag_shade(m.square_tags[square_index(row, col)]) == tag_shade(
            n.square_tags[square_index(row, col)],
        ),
{
}

/// Rows are drawn in order, one next to the other: one row further from White's
/// home rank is one cell up where White looks at the board and one cell down
/// otherwise, in the same column.
pub proof fn law_rows_are_drawn_in_order(
    square: SquareView,
    next: SquareView,
    model: AppModel,
    row: int,
    col: int,
)
    requires
        0 <= row < 7,
        0 <= col < 8,
        square.shows(model, row, col),
        next.shows(model, row + 1, col),
    ensures
        next.draw_col == square.draw_col,
        model.rotated ==> next.draw_row + 1 == square.draw_row,
        !model.rotated ==> next.draw_row == square.draw_row + 1,
{
}

/// Columns are drawn in order, one next to the other: one column further is one
/// cell to the left where White looks at the board and one cell to the right
/// otherwise, in the same row.
pub proof fn law_columns_are_drawn_in_order(
    square: SquareView,
    next: SquareView,
    model: AppModel,
    row: int,
    col: int,
)
    requires
        0 <= row < 8,
        0 <= col < 7,
        square.shows(model, row, col),
        next.shows(model, row, col + 1),
    ensures
        next.draw_row == square.draw_row,
        model.rotated ==> next.draw_col + 1 == square.draw_col,
        !model.rotated ==> next.draw_col == square.draw_col + 1,
{
}

/// Turned to White, each square is as far from the bottom right corner as it is
/// from the first square of the board; turned to Black, from the top left corner.
pub proof fn law_cells_count_from_the_first_square(
    square: SquareView,
    model: AppModel,
    row: int,
    col: int,
)
    requires
        0 <= row < 8,
        0 <= col < 8,
        square.shows(model, row, col),
    ensures
        model.rotated ==> square.draw_row + row == 7 && square.draw_col + col == 7,
        !model.rotated ==> square.draw_row == row && square.draw_col == col,
        square.row == row,
        square.col == col,
{
}

/// A square is white or grey by turns, and only its blue is dimmed: by half as
/// much for the last move as for a target, and not at all otherwise.
pub proof fn law_colours_by_place_and_tag(
    square: SquareView,
    model: AppModel,
    row: int,
    col: int,
)
    requires
        0 <= row < 8,
        0 <= col < 8,
        square.shows(model, row, col),
    ensures
        square.red == 255 <==> (row + col) % 2 == 0,
        square.red == 205 <==> (row + col) % 2 == 1,
        square.green == square.red,
        square.red - square.blue == 25 <==> model.square_tags[row * 8 + col] == 2,
        square.red - square.blue == 50 <==> model.square_tags[row * 8 + col] == 1,
        square.red == square.blue <==> model.square_tags[row * 8 + col] != 2
            && model.square_tags[row * 8 + col] != 1,
{
}

/// A square carries the drawing of the piece on it, of either side and in every
/// place, and a blank exactly if it is empty.
pub proof fn law_labels_show_the_piece_on_the_square(
    square: SquareView,
    model: AppModel,
    row: int,
    col: int,
)
    requires
        0 <= row < 8,
        0 <= col < 8,
        square.shows(model, row, col),
    ensures
        model.board[row * 8 + col] matches Some(p) ==> square.label@ == drawn_as(
            p,
            model.use_solid_unicode,
        ),
        square.label@ == seq![' '] <==> model.board[row * 8 + col] is None,
{
    if let Some(p) = model.board[row * 8 + col] {
        crate::pieces::law_glyphs_are_the_chess_symbols(p, model.use_solid_unicode);
        assert(square.label@[0] != ' ');
    }
}

} // verus!
