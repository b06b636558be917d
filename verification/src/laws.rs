//! What holds across the events of a game.

use vstd::prelude::*;
use crate::grid::{base_tone, SquareView};
use crate::model::{
    move_tags, no_tags, player_for, square_index, target_tags, turns_to_mate, AppModel,
    EngineScale, Phase, PlayerKind, Reply, TickAction,
};
use crate::pieces::{decoded, ColoredPiece, Piece, Side};
use crate::text::{signed_decimal, value_of};

verus! {

/// The window opens in a consistent state.
pub proof fn law_first_state_is_consistent(codes: Seq<i8>)
    ensures
        AppModel::initial(codes).consistent(),
{
}

/// Ticks and the reports that follow them lead from consistent states to
/// consistent states.
pub proof fn law_ticks_keep_consistency(
    m: AppModel,
    seen: Option<Seq<i8>>,
    move_counter: nat,
    from: usize,
    to: usize,
    played: Option<Seq<char>>,
    reply: Reply,
    notation: Seq<char>,
    scale: EngineScale,
)
    requires
        m.consistent(),
    ensures
        m.ticked(seen).consistent(),
        m.turn_decided(move_counter).consistent(),
        m.move_settled(from, to, played).consistent(),
        m.reply_settled(reply, notation, scale).consistent(),
{
}

/// Clicks, checkboxes and buttons lead from consistent states to consistent
/// states.
pub proof fn law_input_keeps_consistency(
    m: AppModel,
    row: usize,
    col: usize,
    square: usize,
    targets: Seq<usize>,
    codes: Seq<i8>,
)
    requires
        m.consistent(),
        row < 8,
        col < 8,
    ensures
        m.clicked(row, col).consistent(),
        m.targets_shown(square, targets).consistent(),
        m.white_toggled().consistent(),
        m.black_toggled().consistent(),
        m.turned_around().consistent(),
        m.restarted(codes).consistent(),
{
}

/// A move that a tick hands on always goes from one square of the board to
/// another, so that the engine's judgement alone decides about it.
pub proof fn law_attempted_moves_change_squares(m: AppModel)
    requires
        m.consistent(),
    ensures
        m.phase == Phase::MoveAttempt <==> m.tick_action() is TryMove,
        m.tick_action() matches TickAction::TryMove { from, to } ==> {
            &&& from < 64
            &&& to < 64
            &&& from != to
        },
{
}

/// An engine that plays is always polled for its reply.
pub proof fn law_playing_engine_is_polled(m: AppModel)
    requires
        m.consistent(),
    ensures
        m.phase == Phase::EnginePlaying <==> m.tick_action() == TickAction::PollReply,
{
}

/// At most one clock runs: that of the side to move, and only while a game is
/// being played.
pub proof fn law_only_the_side_to_move_is_on_the_clock(m: AppModel)
    requires
        m.valid(),
    ensures
        m.running_clock() is Some <==> m.phase != Phase::Uninitialized && m.phase
            != Phase::Inactive,
        m.running_clock() matches Some(side) ==> side == m.turn && side < 2,
{
}

/// Between events, ticks do nothing but bring the board up to date.
pub proof fn law_idle_ticks_only_sync_the_board(m: AppModel, seen: Option<Seq<i8>>)
    requires
        m.phase == Phase::Ready || m.phase == Phase::Inactive || m.phase == Phase::Uninitialized
            || m.phase == Phase::EnginePlaying,
    ensures
        m.ticked(seen) == (AppModel { board: m.ticked(seen).board, ..m }),
        m.ticked(None) == m,
{
}

/// The turn alternates with the move counter, and who is to act is the player on
/// that side.
pub proof fn law_turns_alternate(m: AppModel, move_counter: nat)
    requires
        m.consistent(),
    ensures
        ({
            let now = m.turn_decided(move_counter);
            let next = m.turn_decided(move_counter + 1);
            &&& now.turn + next.turn == 1
            &&& now.phase == Phase::Ready <==> m.players[now.turn as int] == PlayerKind::Human
            &&& now.phase == Phase::EngineThinking <==> m.players[now.turn as int]
                == PlayerKind::Engine
        }),
{
    assert((move_counter + 1) % 2 != move_counter % 2);
}

/// Selecting a piece and clicking it again leaves nothing selected, nothing
/// pending and nothing highlighted.
pub proof fn law_second_click_on_a_square_deselects(
    m: AppModel,
    row: usize,
    col: usize,
    targets: Seq<usize>,
)
    requires
        m.valid(),
        row < 8,
        col < 8,
        m.click_selects(row as int, col as int),
    ensures
        ({
            let square = square_index(row as int, col as int) as usize;
            m.clicked(row, col).targets_shown(square, targets).clicked(row, col)
        }) == (AppModel {
            selected: None,
            pending_move: None,
            square_tags: no_tags(),
            phase: Phase::Ready,
            ..m
        }),
{
}

/// Selecting a piece and clicking another square has the next tick try that very
/// move, which is then no longer pending.
pub proof fn law_two_clicks_make_a_move(
    m: AppModel,
    row: usize,
    col: usize,
    to_row: usize,
    to_col: usize,
    targets: Seq<usize>,
    seen: Option<Seq<i8>>,
)
    requires
        m.valid(),
        row < 8,
        col < 8,
        to_row < 8,
        to_col < 8,
        row != to_row || col != to_col,
        m.click_selects(row as int, col as int),
    ensures
        ({
            let from = square_index(row as int, col as int) as usize;
            let to = square_index(to_row as int, to_col as int) as usize;
            let asked = m.clicked(row, col).targets_shown(from, targets).clicked(to_row, to_col);
            &&& from != to
            &&& asked.selected is None
            &&& asked.tick_action() == TickAction::TryMove { from, to }
            &&& asked.ticked(seen).phase == Phase::Uninitialized
            &&& asked.ticked(seen).pending_move is None
            &&& asked.ticked(seen).tick_action() == TickAction::AskTurn
        }),
{
}

/// A tick in which a person's move is played clears the request, records the
/// move, and leaves the rest but the board as it was.
pub proof fn law_tick_that_plays_a_move(
    m: AppModel,
    seen: Option<Seq<i8>>,
    notation: Seq<char>,
)
    requires
        m.consistent(),
        m.phase == Phase::MoveAttempt,
    ensures
        m.tick_action() matches TickAction::TryMove { from, to } && m.ticked(seen).move_settled(
            from,
            to,
            Some(notation),
        ) == (AppModel {
            board: m.synced(seen).board,
            pending_move: None,
            phase: Phase::Uninitialized,
            square_tags: move_tags(from as int, to as int),
            movelist: m.movelist.push(notation),
            status: notation,
            ..m
        }),
{
}

/// A tick in which a person's move is refused clears the request and says so,
/// and leaves the rest but the board as it was.
pub proof fn law_tick_that_refuses_a_move(m: AppModel, seen: Option<Seq<i8>>)
    requires
        m.consistent(),
        m.phase == Phase::MoveAttempt,
    ensures
        m.tick_action() matches TickAction::TryMove { from, to } && m.ticked(seen).move_settled(
            from,
            to,
            None,
        ) == (AppModel {
            board: m.synced(seen).board,
            pending_move: None,
            phase: Phase::Uninitialized,
            square_tags: no_tags(),
            status: "Invalid move."@,
            ..m
        }),
{
}

/// Nothing happens on a click where there is nothing to select.
pub proof fn law_click_on_an_empty_square_selects_nothing(m: AppModel, row: usize, col: usize)
    requires
        m.selected is None,
        m.board[square_index(row as int, col as int)] is None,
    ensures
        m.clicked(row, col) == m,
{
}

/// A refused move leaves the list of moves as it was, and after it the same
/// side is to move again for the same move counter.
pub proof fn law_refused_move_keeps_the_game(
    m: AppModel,
    from: usize,
    to: usize,
    move_counter: nat,
)
    requires
        m.valid(),
    ensures
        m.move_settled(from, to, None) == (AppModel {
            square_tags: no_tags(),
            status: "Invalid move."@,
            ..m
        }),
        m.move_settled(from, to, None).turn_decided(move_counter).turn == m.turn_decided(
            move_counter,
        ).turn,
{
}

/// A move that is played, by a person or by the engine, is added at the end of
/// the list of moves, and its two squares alone are highlighted.
pub proof fn law_played_moves_are_recorded(
    m: AppModel,
    from: usize,
    to: usize,
    reply: Reply,
    notation: Seq<char>,
    scale: EngineScale,
)
    ensures
        m.move_settled(from, to, Some(notation)).movelist == m.movelist.push(notation),
        m.move_settled(from, to, Some(notation)).square_tags == move_tags(from as int, to as int),
        m.reply_settled(reply, notation, scale).movelist == m.movelist.push(notation),
        m.reply_settled(reply, notation, scale).square_tags == move_tags(
            reply.src as int,
            reply.dst as int,
        ),
{
}

/// Nothing else that happens in a game touches the list of moves.
pub proof fn law_only_played_moves_enter_the_list(
    m: AppModel,
    seen: Option<Seq<i8>>,
    move_counter: nat,
    row: usize,
    col: usize,
    square: usize,
    targets: Seq<usize>,
)
    ensures
        m.ticked(seen).movelist == m.movelist,
        m.turn_decided(move_counter).movelist == m.movelist,
        m.move_settled(row, col, None).movelist == m.movelist,
        m.clicked(row, col).movelist == m.movelist,
        m.targets_shown(square, targets).movelist == m.movelist,
        m.white_toggled().movelist == m.movelist,
        m.black_toggled().movelist == m.movelist,
        m.turned_around().movelist == m.movelist,
{
}

/// When the turn falls to the engine, the next tick starts it and the ticks
/// after that wait for its reply.
pub proof fn law_engine_is_started_then_awaited(
    m: AppModel,
    move_counter: nat,
    seen: Option<Seq<i8>>,
    again: Option<Seq<i8>>,
)
    requires
        m.consistent(),
        m.players[(move_counter % 2) as int] == PlayerKind::Engine,
    ensures
        ({
            let turn = m.turn_decided(move_counter);
            let started = turn.ticked(seen);
            let waiting = started.ticked(again);
            &&& turn.tick_action() == TickAction::StartEngine
            &&& started.tick_action() == TickAction::PollReply
            &&& waiting.tick_action() == TickAction::PollReply
            &&& waiting == started.synced(again)
        }),
{
}

/// A reply settles the engine's turn: none is due any more, and either the game
/// is over or the next turn is to be decided.
pub proof fn law_reply_ends_the_engines_turn(
    m: AppModel,
    reply: Reply,
    notation: Seq<char>,
    scale: EngineScale,
)
    ensures
        !m.reply_settled(reply, notation, scale).awaiting_reply,
        m.reply_settled(reply, notation, scale).phase == Phase::Inactive <==> reply.state
            == scale.state_checkmate,
        m.reply_settled(reply, notation, scale).tick_action() == TickAction::AskTurn <==> reply.state
            != scale.state_checkmate,
{
}

/// Once the game is over neither clicks nor ticks bring it back: the board takes
/// no input, no clock runs and nothing is asked of the engine.
pub proof fn law_finished_game_stays_finished(
    m: AppModel,
    row: usize,
    col: usize,
    seen: Option<Seq<i8>>,
)
    requires
        m.phase == Phase::Inactive,
    ensures
        m.clicked(row, col) == m,
        m.ticked(seen) == m.synced(seen),
        m.ticked(seen).phase == Phase::Inactive,
        m.running_clock() is None,
        m.tick_action() == TickAction::Rest,
{
}

/// A checkbox used twice puts the players back as they were; either way the turn
/// is decided anew.
pub proof fn law_checkboxes_undo_themselves(m: AppModel)
    requires
        m.consistent(),
    ensures
        m.white_toggled().white_toggled() == (AppModel { phase: Phase::Uninitialized, ..m }),
        m.black_toggled().black_toggled() == (AppModel { phase: Phase::Uninitialized, ..m }),
{
    assert(m.white_toggled().white_toggled().players =~= m.players);
    assert(m.black_toggled().black_toggled().players =~= m.players);
}

/// A checkbox seats the engine or a person on its own side alone.
pub proof fn law_checkboxes_seat_one_side(m: AppModel)
    requires
        m.consistent(),
    ensures
        m.white_toggled().players =~= seq![player_for(!m.engine_plays_white), m.players[1]],
        m.black_toggled().players =~= seq![m.players[0], player_for(!m.engine_plays_black)],
        m.white_toggled().players[0] != m.players[0],
        m.black_toggled().players[1] != m.players[1],
{
}

/// Rotating twice leaves everything as it was.
pub proof fn law_rotating_twice_changes_nothing(m: AppModel)
    ensures
        m.turned_around().turned_around() == m,
{
}

/// A new game forgets the old one: states that share their settings, their
/// status line and their turn are the same after it.
pub proof fn law_new_game_forgets_the_old_one(m: AppModel, n: AppModel, codes: Seq<i8>)
    requires
        m.players == n.players,
        m.engine_plays_white == n.engine_plays_white,
        m.engine_plays_black == n.engine_plays_black,
        m.use_solid_unicode == n.use_solid_unicode,
        m.rotated == n.rotated,
        m.active == n.active,
        m.status == n.status,
        m.turn == n.turn,
    ensures
        m.restarted(codes) == n.restarted(codes),
{
}

/// A new game keeps who plays and how the board is drawn.
pub proof fn law_new_game_keeps_the_settings(m: AppModel, codes: Seq<i8>)
    ensures
        m.restarted(codes).players == m.players,
        m.restarted(codes).engine_plays_white == m.engine_plays_white,
        m.restarted(codes).engine_plays_black == m.engine_plays_black,
        m.restarted(codes).use_solid_unicode == m.use_solid_unicode,
        m.restarted(codes).rotated == m.rotated,
        m.restarted(codes).active == m.active,
{
}

/// After a move the squares that it joined, and no others, are drawn in the
/// colour of the last move.
pub proof fn law_last_move_shows_on_the_board(
    m: AppModel,
    from: usize,
    to: usize,
    notation: Seq<char>,
    row: int,
    col: int,
    square: SquareView,
)
    requires
        0 <= row < 8,
        0 <= col < 8,
        square.shows(m.move_settled(from, to, Some(notation)), row, col),
    ensures
        square.blue == base_tone(row, col) - if square_index(row, col) == from || square_index(
            row,
            col,
        ) == to {
            25int
        } else {
            0int
        },
{
}

/// While a piece is selected the squares that it can go to, and no others, are
/// drawn in the colour of targets.
pub proof fn law_targets_show_on_the_board(
    m: AppModel,
    selected: usize,
    targets: Seq<usize>,
    row: int,
    col: int,
    square: SquareView,
)
    requires
        0 <= row < 8,
        0 <= col < 8,
        square.shows(m.targets_shown(selected, targets), row, col),
    ensures
        square.blue == base_tone(row, col) - if square_index(row, col) != selected
            && targets.contains(square_index(row, col) as usize) {
            50int
        } else {
            0int
        },
{
    assert(m.targets_shown(selected, targets).square_tags == target_tags(selected as int, targets));
}

/// A state is valid if its boards have 64 squares, two players sit at it, and what
/// it names are sides and squares. Nothing else is asked of it.
pub proof fn law_states_within_the_board_are_valid(m: AppModel)
    requires
        m.board.len() == 64,
        m.square_tags.len() == 64,
        m.players.len() == 2,
        m.turn < 2,
        m.selected matches Some((row, col)) ==> row < 8 && col < 8,
        m.pending_move matches Some((from, to)) ==> from < 64 && to < 64,
    ensures
        m.valid(),
{
}

/// A valid state is consistent if an attempted move is pending between two
/// squares with nothing selected, a playing engine owes a reply, and the seats are
/// as the flags say. Nothing else is asked of it.
pub proof fn law_states_in_order_are_consistent(m: AppModel)
    requires
        m.valid(),
        m.pending_move matches Some((from, to)) ==> from != to,
        m.phase == Phase::MoveAttempt ==> m.pending_move is Some && m.selected is None,
        m.phase == Phase::EnginePlaying ==> m.awaiting_reply,
        m.players[0] == PlayerKind::Engine <==> m.engine_plays_white,
        m.players[1] == PlayerKind::Engine <==> m.engine_plays_black,
    ensures
        m.consistent(),
{
}

/// Squares are counted row by row from the first.
pub proof fn law_squares_are_counted_row_by_row(row: int, col: int)
    ensures
        square_index(0, 0) == 0,
        square_index(row, col + 1) == square_index(row, col) + 1,
        square_index(row + 1, 0) == square_index(row, 7) + 1,
        square_index(row, col) == 8 * row + col,
{
}

/// A seat is the engine's exactly if its flag says so.
pub proof fn law_flags_name_the_players(engine_plays: bool)
    ensures
        player_for(engine_plays) == PlayerKind::Engine <==> engine_plays,
        player_for(engine_plays) == PlayerKind::Human <==> !engine_plays,
{
}

/// The window opens on the game's board with nothing selected, tagged, pending or
/// played, a person at White and the engine at Black, and the turn undecided.
pub proof fn law_window_opens_on_the_game(codes: Seq<i8>, i: int)
    requires
        0 <= i < 64,
    ensures
        ({
            let m = AppModel::initial(codes);
            &&& m.board == decoded(codes)
            &&& m.square_tags.len() == 64
            &&& m.square_tags[i] == 0
            &&& m.selected is None
            &&& m.pending_move is None
            &&& m.movelist.len() == 0
            &&& m.phase == Phase::Uninitialized
            &&& m.status == "Tiny chess"@
            &&& m.players.len() == 2
            &&& m.players[0] == PlayerKind::Human
            &&& m.players[1] == PlayerKind::Engine
            &&& !m.engine_plays_white
            &&& m.engine_plays_black
            &&& !m.use_solid_unicode
            &&& !m.rotated
            &&& m.active
            &&& m.turn == 0
            &&& !m.awaiting_reply
        }),
{
}

/// Whatever the state, whatever has been played, a tick that saw the game shows
/// the game: each square holds a piece exactly if its code is that piece's, and
/// nothing exactly if its code is no piece's. A tick that did not see the game
/// leaves the board as it was.
pub proof fn law_every_tick_shows_the_game(m: AppModel, codes: Seq<i8>, i: int, p: ColoredPiece)
    requires
        0 <= i < 64,
    ensures
        m.ticked(Some(codes)).board == decoded(codes),
        m.ticked(Some(codes)).board.len() == 64,
        m.ticked(Some(codes)).board[i] == Some(p) <==> codes[i] == (match p.piece {
            Piece::Pawn => 1int,
            Piece::Knight => 2int,
            Piece::Bishop => 3int,
            Piece::Rook => 4int,
            Piece::Queen => 5int,
            Piece::King => 6int,
        }) * (if p.side == Side::White {
            1int
        } else {
            -1int
        }),
        m.ticked(Some(codes)).board[i] is None <==> codes[i] == 0 || codes[i] > 6 || codes[i] < -6,
        m.ticked(None).board == m.board,
        m.synced(Some(codes)) == (AppModel { board: m.ticked(Some(codes)).board, ..m }),
        m.synced(None) == m,
{
    crate::pieces::law_decoding_goes_square_by_square(codes, i, p);
}

/// What a tick does besides: an attempted move is taken up and the turn is open
/// again, an engine whose turn it is starts to play and owes a reply, and in every
/// other phase nothing changes. No tick touches anything else.
pub proof fn law_ticks_move_the_phases_on(m: AppModel, seen: Option<Seq<i8>>)
    ensures
        ({
            let out = m.ticked(seen);
            &&& out == (AppModel {
                board: out.board,
                phase: out.phase,
                pending_move: out.pending_move,
                awaiting_reply: out.awaiting_reply,
                ..m
            })
            &&& m.phase == Phase::MoveAttempt ==> out.phase == Phase::Uninitialized
            &&& m.phase == Phase::EngineThinking ==> out.phase == Phase::EnginePlaying
            &&& m.phase != Phase::MoveAttempt && m.phase != Phase::EngineThinking ==> out.phase
                == m.phase
            &&& m.phase == Phase::MoveAttempt ==> out.pending_move is None
            &&& m.phase != Phase::MoveAttempt ==> out.pending_move == m.pending_move
            &&& m.phase == Phase::EngineThinking ==> out.awaiting_reply
            &&& m.phase != Phase::EngineThinking ==> out.awaiting_reply == m.awaiting_reply
        }),
{
}

/// What a tick asks for tells the phase, and the phase what it asks for: the turn
/// where it is open, the very move that is pending where one is attempted, the
/// engine where it is to start, and its reply where one is owed.
pub proof fn law_ticks_ask_what_the_phase_needs(m: AppModel, from: usize, to: usize)
    ensures
        m.tick_action() == TickAction::AskTurn <==> m.phase == Phase::Uninitialized,
        m.tick_action() == (TickAction::TryMove { from, to }) <==> m.phase == Phase::MoveAttempt
            && m.pending_move == Some((from, to)),
        m.tick_action() == TickAction::StartEngine <==> m.phase == Phase::EngineThinking,
        m.tick_action() == TickAction::PollReply <==> m.phase == Phase::EnginePlaying
            && m.awaiting_reply,
        m.tick_action() == TickAction::Rest <==> {
            ||| m.phase == Phase::Ready
            ||| m.phase == Phase::Inactive
            ||| m.phase == Phase::MoveAttempt && m.pending_move is None
            ||| m.phase == Phase::EnginePlaying && !m.awaiting_reply
        },
{
}

/// In every state the clock that runs is that of the side to move: it stands still
/// exactly while the turn is open or the game is over.
pub proof fn law_the_clock_follows_the_turn(m: AppModel)
    ensures
        m.running_clock() is None <==> m.phase == Phase::Uninitialized || m.phase
            == Phase::Inactive,
        m.running_clock() is Some ==> m.running_clock() == Some(m.turn),
{
}

/// The side to move is White after an even number of moves and Black after an odd
/// one; a person there is let move, an engine there is to start. Nothing else
/// changes.
pub proof fn law_the_counter_decides_who_acts(m: AppModel, move_counter: nat)
    ensures
        ({
            let out = m.turn_decided(move_counter);
            &&& out == (AppModel { turn: out.turn, phase: out.phase, ..m })
            &&& out.turn == 0 <==> move_counter % 2 == 0
            &&& out.turn == 1 <==> move_counter % 2 == 1
            &&& m.players[out.turn as int] == PlayerKind::Human ==> out.phase == Phase::Ready
            &&& m.players[out.turn as int] == PlayerKind::Engine ==> out.phase
                == Phase::EngineThinking
        }),
{
}

/// A person's move that is played becomes the last of the list and the status
/// line, behind all moves before it; the squares it joins, and no others, are
/// tagged. One that is refused leaves the list and is reported, and no square is
/// tagged. Nothing else changes either way.
pub proof fn law_a_persons_move_is_settled(
    m: AppModel,
    from: usize,
    to: usize,
    notation: Seq<char>,
    i: int,
)
    requires
        0 <= i < 64,
    ensures
        ({
            let out = m.move_settled(from, to, Some(notation));
            &&& out == (AppModel {
                square_tags: out.square_tags,
                movelist: out.movelist,
                status: out.status,
                ..m
            })
            &&& out.movelist.len() == m.movelist.len() + 1
            &&& out.movelist.drop_last() == m.movelist
            &&& out.movelist.last() == notation
            &&& out.status == notation
            &&& out.square_tags.len() == 64
            &&& i == from || i == to ==> out.square_tags[i] == 2
            &&& i != from && i != to ==> out.square_tags[i] == 0
        }),
        ({
            let out = m.move_settled(from, to, None);
            &&& out == (AppModel { square_tags: out.square_tags, status: out.status, ..m })
            &&& out.status == "Invalid move."@
            &&& out.square_tags.len() == 64
            &&& out.square_tags[i] == 0
        }),
{
    let out = m.move_settled(from, to, Some(notation));
    assert(out.movelist.drop_last() =~= m.movelist);
}

/// The engine's move becomes the last of the list, behind all moves before it; the
/// squares it joins, and no others, are tagged; no reply is owed any more; and the
/// game is over exactly if the reply says so, else the turn is open. Nothing but
/// the status line changes besides.
pub proof fn law_a_reply_is_settled(
    m: AppModel,
    reply: Reply,
    notation: Seq<char>,
    scale: EngineScale,
    i: int,
)
    requires
        0 <= i < 64,
    ensures
        ({
            let out = m.reply_settled(reply, notation, scale);
            &&& out == (AppModel {
                square_tags: out.square_tags,
                movelist: out.movelist,
                status: out.status,
                awaiting_reply: out.awaiting_reply,
                phase: out.phase,
                ..m
            })
            &&& out.movelist.len() == m.movelist.len() + 1
            &&& out.movelist.drop_last() == m.movelist
            &&& out.movelist.last() == notation
            &&& out.square_tags.len() == 64
            &&& i == reply.src || i == reply.dst ==> out.square_tags[i] == 2
            &&& i != reply.src && i != reply.dst ==> out.square_tags[i] == 0
            &&& !out.awaiting_reply
            &&& reply.state == scale.state_checkmate ==> out.phase == Phase::Inactive
            &&& reply.state != scale.state_checkmate ==> out.phase == Phase::Uninitialized
        }),
{
    let out = m.reply_settled(reply, notation, scale);
    assert(out.movelist.drop_last() =~= m.movelist);
}

/// Short of checkmate the status line opens with the notation and, in brackets,
/// the score as it is: a minus sign exactly if it is negative, then the digits of
/// its size. Behind the brackets stands nothing unless the score is beyond the
/// mark either way.
pub proof fn law_status_shows_the_score(
    m: AppModel,
    reply: Reply,
    notation: Seq<char>,
    scale: EngineScale,
)
    requires
        reply.state != scale.state_checkmate,
    ensures
        ({
            let status = m.reply_settled(reply, notation, scale).status;
            let t = signed_decimal(reply.score as int);
            let head = notation + " (scr: "@ + t + ")"@;
            &&& head.is_prefix_of(status)
            &&& -scale.king_value_div_2 <= reply.score <= scale.king_value_div_2 ==> status == head
            &&& t.len() >= 1
            &&& t[0] == '-' <==> reply.score < 0
            &&& forall|k: int| 1 <= k < t.len() ==> '0' <= #[trigger] t[k] <= '9'
            &&& reply.score >= 0 ==> '0' <= t[0] <= '9' && value_of(t) == reply.score
            &&& reply.score < 0 ==> t.len() >= 2 && value_of(t.skip(1)) == -reply.score
        }),
{
    crate::text::law_signed_decimal_is_sign_and_size(reply.score as int);
}

/// The status line in full: the notation with the score short of a checkmate in
/// sight; behind it, where the score is beyond the mark either way, the number of
/// moves left; and at checkmate the end of the game alone.
pub proof fn law_status_tells_what_the_reply_says(
    m: AppModel,
    reply: Reply,
    notation: Seq<char>,
    scale: EngineScale,
)
    ensures
        ({
            let status = m.reply_settled(reply, notation, scale).status;
            let scored = notation + " (scr: "@ + signed_decimal(reply.score as int) + ")"@;
            let beyond = reply.score > scale.king_value_div_2 || -reply.score
                > scale.king_value_div_2;
            &&& reply.state == scale.state_checkmate ==> status == "Checkmate, game terminated!"@
            &&& reply.state != scale.state_checkmate && !beyond ==> status == scored
            &&& reply.state != scale.state_checkmate && beyond ==> status == scored
                + " Checkmate in "@ + signed_decimal(turns_to_mate(reply))
        }),
{
}

/// The moves left to a checkmate: one less than half of the reply's count for an
/// engine that is ahead and one more otherwise, where halving drops the remainder.
pub proof fn law_moves_left_are_half_the_count(reply: Reply)
    ensures
        ({
            let halves = turns_to_mate(reply) + if reply.score > 0 {
                1int
            } else {
                -1int
            };
            let remainder = reply.checkmate_in - 2 * halves;
            &&& reply.checkmate_in >= 0 ==> 0 <= remainder <= 1
            &&& reply.checkmate_in <= 0 ==> -1 <= remainder <= 0
        }),
{
}

/// With nothing selected, a click on any piece, of whichever kind and side and on
/// whichever square, selects it: its square is handed on, no move is pending, no
/// square is tagged and a person is to move. Nothing else changes.
pub proof fn law_a_click_selects_any_piece(m: AppModel, row: usize, col: usize, i: int)
    requires
        row < 8,
        col < 8,
        0 <= i < 64,
        m.phase != Phase::Inactive,
        m.selected is None,
        m.board[row * 8 + col] is Some,
    ensures
        m.click_selects(row as int, col as int),
        ({
            let out = m.clicked(row, col);
            &&& out == (AppModel {
                selected: out.selected,
                pending_move: out.pending_move,
                square_tags: out.square_tags,
                phase: out.phase,
                ..m
            })
            &&& out.selected == Some((row, col))
            &&& out.pending_move is None
            &&& out.square_tags.len() == 64
            &&& out.square_tags[i] == 0
            &&& out.phase == Phase::Ready
        }),
{
}

/// A click selects nothing once the game is over, on an empty square, or while a
/// square is selected; on an empty square with none selected it does nothing.
pub proof fn law_other_clicks_select_nothing(m: AppModel, row: usize, col: usize)
    requires
        row < 8,
        col < 8,
        m.phase == Phase::Inactive || m.selected is Some || m.board[row * 8 + col] is None,
    ensures
        !m.click_selects(row as int, col as int),
        m.phase == Phase::Inactive || m.selected is None ==> m.clicked(row, col) == m,
{
}

/// With a square selected, a click on any other asks for the move from the one to
/// the other and drops the selection. Nothing else changes; the tags stay.
pub proof fn law_a_second_click_asks_for_the_move(
    m: AppModel,
    from_row: usize,
    from_col: usize,
    row: usize,
    col: usize,
)
    requires
        from_row < 8,
        from_col < 8,
        row < 8,
        col < 8,
        m.phase != Phase::Inactive,
        m.selected == Some((from_row, from_col)),
        from_row != row || from_col != col,
    ensures
        ({
            let out = m.clicked(row, col);
            &&& out == (AppModel {
                selected: out.selected,
                pending_move: out.pending_move,
                phase: out.phase,
                ..m
            })
            &&& out.selected is None
            &&& out.phase == Phase::MoveAttempt
            &&& out.pending_move matches Some((from, to)) && from == from_row * 8 + from_col && to
                == row * 8 + col
        }),
{
}

/// With a square selected, a click on that very square drops the selection, any
/// pending move and all tags. Nothing else changes; the phase stays.
pub proof fn law_a_click_on_the_selected_square_drops_it(
    m: AppModel,
    row: usize,
    col: usize,
    i: int,
)
    requires
        0 <= i < 64,
        m.phase != Phase::Inactive,
        m.selected == Some((row, col)),
    ensures
        ({
            let out = m.clicked(row, col);
            &&& out == (AppModel {
                selected: out.selected,
                pending_move: out.pending_move,
                square_tags: out.square_tags,
                ..m
            })
            &&& out.selected is None
            &&& out.pending_move is None
            &&& out.square_tags.len() == 64
            &&& out.square_tags[i] == 0
        }),
{
}

/// Showing where a piece can go tags its own square with -1, every other square
/// that is among the targets with 1, and no other. Nothing else changes.
pub proof fn law_targets_are_tagged(m: AppModel, square: usize, targets: Seq<usize>, i: usize)
    requires
        i < 64,
    ensures
        ({
            let out = m.targets_shown(square, targets);
            &&& out == (AppModel { square_tags: out.square_tags, ..m })
            &&& out.square_tags.len() == 64
            &&& out.square_tags[i as int] == -1 <==> i == square
            &&& out.square_tags[i as int] == 1 <==> i != square && exists|k: int|
                0 <= k < targets.len() && targets[k] == i
            &&& -1 <= out.square_tags[i as int] <= 1
        }),
{
}

/// A checkbox turns its own flag over and seats at its side the player that the
/// flag now names; the turn is decided anew. Nothing else changes.
pub proof fn law_checkboxes_turn_their_flag_over(m: AppModel)
    requires
        m.players.len() == 2,
    ensures
        ({
            let out = m.white_toggled();
            &&& out == (AppModel {
                engine_plays_white: out.engine_plays_white,
                players: out.players,
                phase: out.phase,
                ..m
            })
            &&& out.engine_plays_white != m.engine_plays_white
            &&& out.players.len() == 2
            &&& out.players[0] == PlayerKind::Engine <==> out.engine_plays_white
            &&& out.players[1] == m.players[1]
            &&& out.phase == Phase::Uninitialized
        }),
        ({
            let out = m.black_toggled();
            &&& out == (AppModel {
                engine_plays_black: out.engine_plays_black,
                players: out.players,
                phase: out.phase,
                ..m
            })
            &&& out.engine_plays_black != m.engine_plays_black
            &&& out.players.len() == 2
            &&& out.players[0] == m.players[0]
            &&& out.players[1] == PlayerKind::Engine <==> out.engine_plays_black
            &&& out.phase == Phase::Uninitialized
        }),
{
}

/// Rotating turns the board over and changes nothing else.
pub proof fn law_rotating_only_turns_the_board(m: AppModel)
    ensures
        m.turned_around().rotated != m.rotated,
        m.turned_around() == (AppModel { rotated: m.turned_around().rotated, ..m }),
{
}

/// A new game shows its board, with nothing selected, tagged, pending, owed or
/// played and the turn open, and leaves everything else as it was.
pub proof fn law_new_game_starts_afresh(m: AppModel, codes: Seq<i8>, i: int)
    requires
        0 <= i < 64,
    ensures
        ({
            let out = m.restarted(codes);
            &&& out == (AppModel {
                board: out.board,
                square_tags: out.square_tags,
                selected: out.selected,
                pending_move: out.pending_move,
                awaiting_reply: out.awaiting_reply,
                phase: out.phase,
                movelist: out.movelist,
                ..m
            })
            &&& out.board == decoded(codes)
            &&& out.square_tags.len() == 64
            &&& out.square_tags[i] == 0
            &&& out.selected is None
            &&& out.pending_move is None
            &&& !out.awaiting_reply
            &&& out.phase == Phase::Uninitialized
            &&& out.movelist.len() == 0
        }),
{
}

} // verus!
