//! The window's state and the events that change it.

use vstd::prelude::*;
use crate::model::{
    AppModel, EngineScale, Phase, PlayerKind, Reply, TickAction, TickPlan,
};
use crate::pieces::{engine_to_board, Board, BoardView, BOARD_SIZE};
use crate::text::signed_decimal_text;

verus! {

pub struct AppState {
    /// View of the board; derived from the game.
    pub board: BoardView,
    /// Currently selected square (for human moves).
    pub selected: Option<(usize, usize)>,
    /// Per-square tags for highlighting last move, possible moves, etc.
    pub square_tags: Board,
    /// High-level phase (whose turn, what is waited for).
    pub phase: Phase,
    /// Status line below controls.
    pub status: String,
    /// Player on each side (0 = white, 1 = black).
    pub players: [PlayerKind; 2],
    /// Flags of the checkboxes.
    pub engine_plays_white: bool,
    pub engine_plays_black: bool,
    /// If true, use "solid" Unicode pieces (always black glyphs).
    pub use_solid_unicode: bool,
    /// If true, draw board from white's perspective; otherwise black's. Row 0 is
    /// White's home rank.
    pub rotated: bool,
    /// If false, the periodic task isn't scheduled.
    pub active: bool,
    /// Current side to move (0 = white, 1 = black).
    pub turn: usize,
    /// Pending human move as linear indices (from, to), if any.
    pub pending_move: Option<(usize, usize)>,
    /// Move list in text form.
    pub movelist: Vec<String>,
    /// Whether a reply of the engine in the background is due.
    pub awaiting_reply: bool,
}

impl View for AppState {
    type V = AppModel;

    open spec fn view(&self) -> AppModel {
        AppModel {
            board: crate::pieces::squares(self.board),
            selected: self.selected,
            square_tags: self.square_tags@,
            phase: self.phase,
            status: self.status@,
            players: self.players@,
            engine_plays_white: self.engine_plays_white,
            engine_plays_black: self.engine_plays_black,
            use_solid_unicode: self.use_solid_unicode,
            rotated: self.rotated,
            active: self.active,
            turn: self.turn,
            pending_move: self.pending_move,
            movelist: crate::text::texts(self.movelist@),
            awaiting_reply: self.awaiting_reply,
        }
    }
}

/// The codes of a board that may have been seen.
pub open spec fn seen_codes(seen: Option<Board>) -> Option<Seq<i8>> {
    match seen {
        Some(codes) => Some(codes@),
        None => None,
    }
}

/// The characters of a notation that may have been given.
pub open spec fn notation_chars(notation: Option<String>) -> Option<Seq<char>> {
    match notation {
        Some(text) => Some(text@),
        None => None,
    }
}

/// Maps an "engine plays this side" flag to a player.
pub fn player_for_engine_flag(engine_plays: bool) -> (player: PlayerKind)
    ensures
        player == crate::model::player_for(engine_plays),
{
    if engine_plays {
        PlayerKind::Engine
    } else {
        PlayerKind::Human
    }
}

/// Whether a move that a person asked for is to be played, given the engine's
/// judgement of it.
pub fn move_is_allowed(from: usize, to: usize, valid: bool) -> (allowed: bool)
    ensures
        allowed == (from != to && valid),
{
    !(from == to || !valid)
}

impl AppState {
    /// The state in which the window opens on a game that stands as given.
    pub fn new(engine_board: Board) -> (state: AppState)
        ensures
            state@ == AppModel::initial(engine_board@),
            state@.consistent(),
    {
        let state = AppState {
            board: engine_to_board(engine_board),
            selected: None,
            square_tags: [0; 64],
            phase: Phase::Uninitialized,
            status: "Tiny chess".to_owned(),
            players: [PlayerKind::Human, PlayerKind::Engine],
            engine_plays_white: false,
            engine_plays_black: true,
            use_solid_unicode: false,
            rotated: false,
            active: true,
            turn: 0,
            pending_move: None,
            movelist: Vec::new(),
            awaiting_reply: false,
        };
        assert(state@ =~= AppModel::initial(engine_board@));
        state
    }

    /// Called periodically to advance the game. `seen` is the game's board, where
    /// the game could be looked at without waiting.
    pub fn tick(&mut self, seen: Option<Board>) -> (plan: TickPlan)
        requires
            old(self)@.valid(),
        ensures
            final(self)@ == old(self)@.ticked(seen_codes(seen)),
            final(self)@.valid(),
            old(self)@.consistent() ==> final(self)@.consistent(),
            plan.clock == old(self)@.running_clock(),
            plan.action == old(self)@.tick_action(),
    {
        let ghost start = self@;
        // Only advance clocks during active phases.
        let clock: Option<usize> = if matches!(
            self.phase,
            Phase::Ready | Phase::MoveAttempt | Phase::EngineThinking | Phase::EnginePlaying
        ) {
            Some(self.turn)
        } else {
            None
        };

        // Sync the board view from the game.
        if let Some(codes) = seen {
            self.board = engine_to_board(codes);
        }
        let action = match self.phase {
            Phase::Uninitialized => TickAction::AskTurn,
            Phase::MoveAttempt => {
                let pending = self.pending_move;
                self.pending_move = None;
                self.phase = Phase::Uninitialized;
                match pending {
                    Some((from, to)) => TickAction::TryMove { from, to },
                    None => TickAction::Rest,
                }
            },
            Phase::EngineThinking => {
                self.phase = Phase::EnginePlaying;
                self.awaiting_reply = true;
                TickAction::StartEngine
            },
            Phase::EnginePlaying => {
                if self.awaiting_reply {
                    TickAction::PollReply
                } else {
                    TickAction::Rest
                }
            },
            // Ready / Inactive: nothing special on tick.
            _ => TickAction::Rest,
        };
        assert(self@ =~= start.ticked(seen_codes(seen)));
        TickPlan { clock, action }
    }

    /// Settles whose turn it is from the game's move counter, and with it who is
    /// to act.
    pub fn decide_turn(&mut self, move_counter: usize)
        requires
            old(self)@.valid(),
        ensures
            final(self)@ == old(self)@.turn_decided(move_counter as nat),
            final(self)@.valid(),
            old(self)@.consistent() ==> final(self)@.consistent(),
    {
        let turn: usize = move_counter % 2;
        self.turn = turn;
        self.phase = match self.players[turn] {
            PlayerKind::Human => Phase::Ready,
            PlayerKind::Engine => Phase::EngineThinking,
        };
    }

    /// Settles a move that a person asked for: `notation` is that of the move if
    /// it was played, and absent if it was refused.
    pub fn settle_move(&mut self, from: usize, to: usize, notation: Option<String>)
        requires
            old(self)@.valid(),
            from < 64,
            to < 64,
        ensures
            final(self)@ == old(self)@.move_settled(from, to, notation_chars(notation)),
            final(self)@.valid(),
            old(self)@.consistent() ==> final(self)@.consistent(),
    {
        let ghost start = self@;
        let ghost noted = notation_chars(notation);
        self.square_tags = [0; 64];
        match notation {
            None => {
                self.status = "Invalid move.".to_owned();
            },
            Some(notation) => {
                self.movelist.push(notation.clone());
                self.status = notation;
                self.square_tags[from] = 2;
                self.square_tags[to] = 2;
            },
        }
        assert(self@ =~= start.move_settled(from, to, noted));
    }

    /// Settles the engine's reply, whose move was played under `notation`.
    pub fn settle_reply(&mut self, reply: Reply, notation: String, scale: EngineScale)
        requires
            old(self)@.valid(),
            0 <= reply.src < 64,
            0 <= reply.dst < 64,
            reply.state == scale.state_checkmate || reply.score != i64::MIN,
        ensures
            final(self)@ == old(self)@.reply_settled(reply, notation@, scale),
            final(self)@.valid(),
            old(self)@.consistent() ==> final(self)@.consistent(),
    {
        let ghost start = self@;
        let ghost noted = notation@;
        self.square_tags = [0; 64];
        self.square_tags[reply.src as usize] = 2;
        self.square_tags[reply.dst as usize] = 2;

        self.movelist.push(notation.clone());
        let mut status = notation;
        status.append(" (scr: ");
        status.append(signed_decimal_text(reply.score).as_str());
        status.append(")");

        self.awaiting_reply = false;
        if reply.state == scale.state_checkmate {
            status = "Checkmate, game terminated!".to_owned();
            self.phase = Phase::Inactive;
        } else {
            let size: i64 = if reply.score < 0 { -reply.score } else { reply.score };
            if size > scale.king_value_div_2 {
                let turns: i64 = reply.checkmate_in / 2 + if reply.score > 0 { -1 } else { 1 };
                status.append(" Checkmate in ");
                status.append(signed_decimal_text(turns).as_str());
            }
            self.phase = Phase::Uninitialized;
        }
        self.status = status;
        assert(self@ =~= start.reply_settled(reply, noted, scale));
    }

    /// A click on a square: the first selects a piece, one on another square asks
    /// for a move there, one on the same square deselects. Once the game is over
    /// the board takes no input. Where a piece was selected, its square is
    /// returned: its targets are to be shown with `show_targets`.
    pub fn click(&mut self, row: usize, col: usize) -> (selected: Option<usize>)
        requires
            old(self)@.valid(),
            row < 8,
            col < 8,
        ensures
            final(self)@ == old(self)@.clicked(row, col),
            final(self)@.valid(),
            old(self)@.consistent() ==> final(self)@.consistent(),
            selected == (if old(self)@.click_selects(row as int, col as int) {
                Some(crate::model::square_index(row as int, col as int) as usize)
            } else {
                None
            }),
    {
        let ghost start = self@;
        let idx: usize = row * BOARD_SIZE + col;
        assert(start.board[idx as int] == self.board@[row as int]@[col as int]);
        if self.phase == Phase::Inactive {
            return None;
        }
        match self.selected {
            None => {
                // First click: select a piece.
                if self.board[row][col].is_some() {
                    self.selected = Some((row, col));
                    self.pending_move = None;
                    self.square_tags = [0; 64];
                    self.phase = Phase::Ready;
                    assert(self@ =~= start.clicked(row, col));
                    Some(idx)
                } else {
                    None
                }
            },
            Some((prev_row, prev_col)) => {
                if prev_row != row || prev_col != col {
                    // Second click: attempt a move.
                    let from_idx: usize = prev_row * BOARD_SIZE + prev_col;
                    self.pending_move = Some((from_idx, idx));
                    self.selected = None;
                    self.phase = Phase::MoveAttempt;
                } else {
                    // Second click on same square: deselect.
                    self.selected = None;
                    self.pending_move = None;
                    self.square_tags = [0; 64];
                }
                assert(self@ =~= start.clicked(row, col));
                None
            },
        }
    }

    /// Marks a selected square and the squares that its piece can go to.
    pub fn show_targets(&mut self, square: usize, targets: &Vec<usize>)
        requires
            old(self)@.valid(),
            square < 64,
            forall|k: int| 0 <= k < targets@.len() ==> #[trigger] targets@[k] < 64,
        ensures
            final(self)@ == old(self)@.targets_shown(square, targets@),
            final(self)@.valid(),
            old(self)@.consistent() ==> final(self)@.consistent(),
    {
        let ghost start = self@;
        self.square_tags = [0; 64];
        let mut n: usize = 0;
        while n < targets.len()
            invariant
                n <= targets@.len(),
                forall|k: int| 0 <= k < targets@.len() ==> #[trigger] targets@[k] < 64,
                self@ == (AppModel { square_tags: self.square_tags@, ..start }),
                forall|i: int|
                    0 <= i < 64 ==> #[trigger] self.square_tags@[i] == (if targets@.take(
                        n as int,
                    ).contains(i as usize) {
                        1i8
                    } else {
                        0i8
                    }),
            decreases targets.len() - n,
        {
            let ghost marked = targets@.take(n as int);
            let target: usize = targets[n];
            self.square_tags[target] = 1;
            proof {
                assert(targets@.take(n + 1) =~= marked.push(target));
                assert forall|x: usize| #[trigger] marked.push(target).contains(x) == (
                marked.contains(x) || x == target) by {
                    if marked.contains(x) {
                        let k = choose|k: int| 0 <= k < marked.len() && marked[k] == x;
                        assert(marked.push(target)[k] == x);
                    }
                    if x == target {
                        assert(marked.push(target)[marked.len() as int] == x);
                    }
                }
            }
            n = n + 1;
        }
        assert(targets@.take(n as int) =~= targets@);
        self.square_tags[square] = -1;
        assert(self@ =~= start.targets_shown(square, targets@));
    }

    /// The "Engine plays white" checkbox.
    pub fn toggle_engine_white(&mut self)
        ensures
            final(self)@ == old(self)@.white_toggled(),
            old(self)@.valid() ==> final(self)@.valid(),
            old(self)@.consistent() ==> final(self)@.consistent(),
    {
        let ghost start = self@;
        self.engine_plays_white = !self.engine_plays_white;
        self.players[0] = player_for_engine_flag(self.engine_plays_white);
        self.phase = Phase::Uninitialized;
        assert(self@ =~= start.white_toggled());
    }

    /// The "Engine plays black" checkbox.
    pub fn toggle_engine_black(&mut self)
        ensures
            final(self)@ == old(self)@.black_toggled(),
            old(self)@.valid() ==> final(self)@.valid(),
            old(self)@.consistent() ==> final(self)@.consistent(),
    {
        let ghost start = self@;
        self.engine_plays_black = !self.engine_plays_black;
        self.players[1] = player_for_engine_flag(self.engine_plays_black);
        self.phase = Phase::Uninitialized;
        assert(self@ =~= start.black_toggled());
    }

    /// The "Rotate" button.
    pub fn rotate(&mut self)
        ensures
            final(self)@ == old(self)@.turned_around(),
            old(self)@.valid() ==> final(self)@.valid(),
            old(self)@.consistent() ==> final(self)@.consistent(),
    {
        self.rotated = !self.rotated;
    }

    /// The "New game" button, after the game has been reset to the given board.
    pub fn new_game(&mut self, engine_board: Board)
        ensures
            final(self)@ == old(self)@.restarted(engine_board@),
            old(self)@.valid() ==> final(self)@.valid(),
            old(self)@.consistent() ==> final(self)@.consistent(),
    {
        let ghost start = self@;
        self.board = engine_to_board(engine_board);
        self.square_tags = [0; 64];
        self.selected = None;
        self.pending_move = None;
        self.awaiting_reply = false;
        self.phase = Phase::Uninitialized;
        self.movelist.clear();
        assert(self@ =~= start.restarted(engine_board@));
    }
}

/// The view of a state holds the state's board, square by square, and its moves,
/// one by one.
pub proof fn law_view_holds_every_field(state: AppState, row: int, col: int, n: int)
    requires
        0 <= row < 8,
        0 <= col < 8,
    ensures
        state@.board[row * 8 + col] == state.board@[row]@[col],
        0 <= n < state.movelist@.len() ==> state@.movelist[n] == state.movelist@[n]@,
{
    crate::pieces::law_squares_run_row_by_row(state.board, row, col);
}

/// The view of a state is as large as the state, and its plain fields are the
/// state's.
pub proof fn law_view_keeps_plain_fields(state: AppState)
    ensures
        state@.board.len() == 64,
        state@.movelist.len() == state.movelist@.len(),
        state@.selected == state.selected,
        state@.square_tags == state.square_tags@,
        state@.phase == state.phase,
        state@.status == state.status@,
        state@.players == state.players@,
        state@.engine_plays_white == state.engine_plays_white,
        state@.engine_plays_black == state.engine_plays_black,
        state@.use_solid_unicode == state.use_solid_unicode,
        state@.rotated == state.rotated,
        state@.active == state.active,
        state@.turn == state.turn,
        state@.pending_move == state.pending_move,
        state@.awaiting_reply == state.awaiting_reply,
{
}

/// A board that was seen, or a notation that was given, counts as it stands, and
/// one that was not counts as none.
pub proof fn law_what_is_given_counts(codes: Board, notation: String)
    ensures
        seen_codes(Some(codes)) == Some(codes@),
        seen_codes(None) is None,
        notation_chars(Some(notation)) == Some(notation@),
        notation_chars(None) is None,
{
}

} // verus!
