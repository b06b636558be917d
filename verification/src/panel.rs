//! The texts beside the board: the clocks, the list of moves and the status.

use vstd::prelude::*;
use crate::state::AppState;
use crate::text::{decimal, decimal_text, padded, push_padded, texts, value_of};

verus! {

/// Minutes and seconds, each with at least two digits, around a colon.
pub open spec fn clock_text(seconds: nat) -> Seq<char> {
    padded(decimal(seconds / 60), 2, '0') + seq![':'] + padded(decimal(seconds % 60), 2, '0')
}

/// How many lines the list of moves takes: one for each pair, and one for a
/// move that has no answer yet.
pub open spec fn line_count(moves: Seq<Seq<char>>) -> nat {
    (moves.len() + 1) / 2
}

/// Line `i` of the list of moves: its number from 1 in three columns, White's
/// move in seven, and Black's answer if there is one.
pub open spec fn move_line(moves: Seq<Seq<char>>, i: int) -> Seq<char> {
    let white = padded(decimal((i + 1) as nat), 3, ' ') + seq!['.', ' '] + padded(
        moves[2 * i],
        7,
        ' ',
    );
    if 2 * i + 1 < moves.len() {
        white + seq![' ', ' '] + moves[2 * i + 1]
    } else {
        white
    }
}

/// The first `n` lines of the list of moves, with line breaks between them.
pub open spec fn first_lines(moves: Seq<Seq<char>>, n: nat) -> Seq<char>
    decreases n,
{
    if n == 0 {
        seq![]
    } else if n == 1 {
        move_line(moves, 0)
    } else {
        first_lines(moves, (n - 1) as nat) + seq!['\n'] + move_line(moves, n - 1)
    }
}

/// The whole list of moves as text.
pub open spec fn moves_text(moves: Seq<Seq<char>>) -> Seq<char> {
    first_lines(moves, line_count(moves))
}

impl AppState {
    /// A simple "MM:SS" display of a number of whole seconds.
    pub fn formatted_clock(total: u64) -> (text: String)
        ensures
            text@ == clock_text(total as nat),
    {
        let minutes: u64 = total / 60;
        let seconds: u64 = total % 60;
        let mut text = String::new();
        proof {
            reveal_strlit("0");
            reveal_strlit(":");
        }
        push_padded(&mut text, decimal_text(minutes).as_str(), 2, "0");
        text.append(":");
        push_padded(&mut text, decimal_text(seconds).as_str(), 2, "0");
        assert(text@ =~= clock_text(total as nat));
        text
    }

    /// Numbers the moves in pairs, one pair to a line.
    pub fn movelist_text(&self) -> (text: String)
        ensures
            text@ == moves_text(self@.movelist),
    {
        let movelist = &self.movelist;
        let ghost moves = texts(movelist@);
        let mut text = String::new();
        let mut at: usize = 0;
        let mut line: usize = 0;
        proof {
            reveal_strlit("\n");
            reveal_strlit(" ");
            reveal_strlit(". ");
            reveal_strlit("  ");
        }
        while at < movelist.len()
            invariant
                moves == texts(movelist@),
                line == (at + 1) / 2,
                at == 2 * line || at == movelist.len(),
                at <= movelist.len(),
                text@ == first_lines(moves, line as nat),
                "\n"@ == seq!['\n'],
                " "@ == seq![' '],
                ". "@ == seq!['.', ' '],
                "  "@ == seq![' ', ' '],
            decreases movelist.len() - at,
        {
            if line > 0 {
                text.append("\n");
            }
            let ghost head = text@;
            line = line + 1;
            push_padded(&mut text, decimal_text(line as u64).as_str(), 3, " ");
            text.append(". ");
            push_padded(&mut text, movelist[at].as_str(), 7, " ");
            if at + 1 < movelist.len() {
                text.append("  ");
                text.append(movelist[at + 1].as_str());
                assert(text@ =~= head + move_line(moves, line - 1));
                at = at + 2;
            } else {
                assert(text@ =~= head + move_line(moves, line - 1));
                at = at + 1;
            }
            assert(text@ =~= first_lines(moves, line as nat));
        }
        text
    }
}

/// The texts of the panel.
pub struct PanelText {
    pub status: String,
    /// White's and Black's clock.
    pub white: String,
    pub black: String,
    /// The moves so far.
    pub movelist: String,
}

/// The panel's texts, for the whole seconds that each side has used.
pub fn settings_panel(state: &AppState, white_secs: u64, black_secs: u64) -> (panel: PanelText)
    ensures
        panel.status@ == state@.status,
        panel.white@ == "White: "@ + clock_text(white_secs as nat),
        panel.black@ == "Black: "@ + clock_text(black_secs as nat),
        panel.movelist@ == moves_text(state@.movelist),
{
    let movelist = state.movelist_text();
    let mut white = "White: ".to_owned();
    white.append(AppState::formatted_clock(white_secs).as_str());
    let mut black = "Black: ".to_owned();
    black.append(AppState::formatted_clock(black_secs).as_str());
    PanelText { status: state.status.clone(), white, black, movelist }
}

/// A clock reads back: after the minutes come a colon and two digits of seconds
/// below sixty, and together they make up the time shown.
pub proof fn law_clock_reads_back(seconds: nat)
    ensures
        ({
            let text = clock_text(seconds);
            let colon = text.len() - 3;
            &&& colon >= 2
            &&& text[colon] == ':'
            &&& 0 <= value_of(text.skip(colon + 1)) < 60
            &&& 60 * value_of(text.take(colon)) + value_of(text.skip(colon + 1)) == seconds
        }),
{
    let text = clock_text(seconds);
    let colon = text.len() - 3;
    let minutes = padded(decimal(seconds / 60), 2, '0');
    let rest = padded(decimal(seconds % 60), 2, '0');
    reveal_with_fuel(decimal, 3);
    assert(rest.len() == 2);
    assert(text.take(colon) =~= minutes);
    assert(text.skip(colon + 1) =~= rest);
    crate::text::law_decimal_reads_back(seconds / 60);
    crate::text::law_decimal_reads_back(seconds % 60);
    crate::text::law_leading_zeros_keep_the_value(decimal(seconds / 60), 2);
    crate::text::law_leading_zeros_keep_the_value(decimal(seconds % 60), 2);
}

/// Different times are shown differently.
pub proof fn law_clock_tells_times_apart(a: nat, b: nat)
    ensures
        clock_text(a) == clock_text(b) ==> a == b,
{
    law_clock_reads_back(a);
    law_clock_reads_back(b);
}

/// Lines that were complete before a move was added stay as they were.
proof fn lemma_full_lines_stay(moves: Seq<Seq<char>>, next: Seq<char>, n: nat)
    requires
        2 * n <= moves.len(),
    ensures
        first_lines(moves.push(next), n) == first_lines(moves, n),
    decreases n,
{
    if n > 0 {
        lemma_full_lines_stay(moves, next, (n - 1) as nat);
        assert(move_line(moves.push(next), n - 1) == move_line(moves, n - 1));
    }
}

/// A move of White's starts a line, with the next number, below the text so far.
pub proof fn law_first_move_of_a_pair_starts_a_line(moves: Seq<Seq<char>>, next: Seq<char>)
    requires
        moves.len() % 2 == 0,
    ensures
        moves_text(moves.push(next)) == moves_text(moves) + (if moves.len() == 0 {
            seq![]
        } else {
            seq!['\n']
        }) + padded(decimal(moves.len() / 2 + 1), 3, ' ') + seq!['.', ' '] + padded(next, 7, ' '),
{
    let n = moves.len() / 2;
    lemma_full_lines_stay(moves, next, n);
    assert(moves.push(next)[2 * n as int] == next);
    assert(moves_text(moves.push(next)) =~= moves_text(moves) + (if moves.len() == 0 {
        seq![]
    } else {
        seq!['\n']
    }) + padded(decimal(n + 1), 3, ' ') + seq!['.', ' '] + padded(next, 7, ' '));
}

/// A move of Black's goes at the end of the text so far, on White's line.
pub proof fn law_second_move_of_a_pair_ends_the_line(moves: Seq<Seq<char>>, next: Seq<char>)
    requires
        moves.len() % 2 == 1,
    ensures
        moves_text(moves.push(next)) == moves_text(moves) + seq![' ', ' '] + next,
{
    let n = moves.len() / 2;
    let grown = moves.push(next);
    lemma_full_lines_stay(moves, next, n);
    assert(grown[2 * n as int] == moves[2 * n as int]);
    assert(grown[2 * n as int + 1] == next);
    assert(move_line(grown, n as int) =~= move_line(moves, n as int) + seq![' ', ' '] + next);
    assert(moves_text(grown) =~= moves_text(moves) + seq![' ', ' '] + next);
}

/// A clock shows digits around its one colon, two of them behind it and no more
/// before it than the minutes need, but two at least.
pub proof fn law_clock_shows_plain_digits(seconds: nat)
    ensures
        ({
            let text = clock_text(seconds);
            let colon = text.len() - 3;
            &&& text.len() >= 5
            &&& text[colon] == ':'
            &&& forall|k: int|
                0 <= k < text.len() && k != colon ==> '0' <= #[trigger] text[k] <= '9'
            &&& text.len() > 5 ==> text[0] != '0'
            &&& 60 * value_of(text.take(colon)) + value_of(text.skip(colon + 1)) == seconds
            &&& value_of(text.skip(colon + 1)) < 60
        }),
{
    law_clock_reads_back(seconds);
    let text = clock_text(seconds);
    let minutes = padded(decimal(seconds / 60), 2, '0');
    let rest = padded(decimal(seconds % 60), 2, '0');
    crate::text::law_decimal_is_plain_digits(seconds / 60);
    crate::text::law_decimal_is_plain_digits(seconds % 60);
    crate::text::law_padding_goes_in_front(decimal(seconds / 60), 2, '0');
    crate::text::law_padding_goes_in_front(decimal(seconds % 60), 2, '0');
    reveal_with_fuel(decimal, 3);
    assert(rest.len() == 2);
    assert(text =~= minutes + seq![':'] + rest);
    assert forall|k: int| 0 <= k < minutes.len() implies '0' <= #[trigger] minutes[k] <= '9' by {
        if decimal(seconds / 60).len() < 2 {
            if k == 1 {
                assert(minutes[k] == decimal(seconds / 60)[0]);
            }
        }
    }
    assert forall|k: int| 0 <= k < rest.len() implies '0' <= #[trigger] rest[k] <= '9' by {
        if decimal(seconds % 60).len() < 2 {
            if k == 1 {
                assert(rest[k] == decimal(seconds % 60)[0]);
            }
        }
    }
    let colon = text.len() - 3;
    assert forall|k: int| 0 <= k < text.len() && k != colon implies '0' <= #[trigger] text[k]
        <= '9' by {
        if k < colon {
            assert(text[k] == minutes[k]);
        } else {
            assert(text[k] == rest[k - colon - 1]);
        }
    }
}

/// The list of moves of a game in which nothing was played is empty, and two more
/// moves add one more line: its number, White's move and Black's.
pub proof fn law_each_pair_of_moves_adds_a_line(
    moves: Seq<Seq<char>>,
    white: Seq<char>,
    black: Seq<char>,
)
    requires
        moves.len() % 2 == 0,
    ensures
        moves_text(seq![]) == Seq::<char>::empty(),
        moves_text(moves.push(white).push(black)) == moves_text(moves) + (if moves.len() == 0 {
            seq![]
        } else {
            seq!['\n']
        }) + padded(decimal(moves.len() / 2 + 1), 3, ' ') + seq!['.', ' '] + padded(white, 7, ' ')
            + seq![' ', ' '] + black,
{
    law_first_move_of_a_pair_starts_a_line(moves, white);
    law_second_move_of_a_pair_ends_the_line(moves.push(white), black);
    assert(moves_text(seq![]) =~= Seq::<char>::empty());
}

} // verus!
