//! The window's state as mathematics: what it consists of, when it is valid,
//! and what each event turns it into.

use vstd::prelude::*;
use crate::pieces::{decoded, ColoredPiece};
use crate::text::signed_decimal;

verus! {

#[derive(Clone, Copy, Debug, PartialEq, Eq, Structural)]
pub enum PlayerKind {
    Human,
    Engine,
}

#[derive(Clone, Copy, Debug, PartialEq, Eq, Structural)]
pub enum Phase {
    /// Waiting to decide whose turn it is next.
    Uninitialized,
    /// Game is over; input is effectively disabled.
    Inactive,
    /// Human can select a piece to move.
    Ready,
    /// Human clicked a destination square; apply the move.
    MoveAttempt,
    /// The engine is to move and has yet to be started.
    EngineThinking,
    /// The engine works in the background; its move is applied when it comes.
    EnginePlaying,
}

/// What a tick leaves for its caller to do with the game.
#[derive(Clone, Copy, Debug, PartialEq, Eq, Structural)]
pub enum TickAction {
    /// Nothing.
    Rest,
    /// Read the game's move counter and report it with `decide_turn`.
    AskTurn,
    /// Have the move from one square to another judged, play it if it is
    /// allowed, and report with `settle_move`.
    TryMove { from: usize, to: usize },
    /// Set the engine to work in the background.
    StartEngine,
    /// If the engine has replied, play its move and report with `settle_reply`.
    PollReply,
}

/// What a tick asks for: the clock to advance, if any, and the next step.
#[derive(Clone, Copy, Debug, PartialEq, Eq, Structural)]
pub struct TickPlan {
    pub clock: Option<usize>,
    pub action: TickAction,
}

/// The engine's reply: a move, and how the engine sees the game after it.
#[derive(Clone, Copy, Debug, PartialEq, Eq, Structural)]
pub struct Reply {
    pub src: i64,
    pub dst: i64,
    pub score: i64,
    pub state: i64,
    pub checkmate_in: i64,
}

/// The engine's own numbers that replies are read by.
#[derive(Clone, Copy, Debug, PartialEq, Eq, Structural)]
pub struct EngineScale {
    /// The state that says the reply ended the game.
    pub state_checkmate: i64,
    /// The score beyond which a checkmate is in sight.
    pub king_value_div_2: i64,
}

/// No square highlighted.
pub open spec fn no_tags() -> Seq<i8> {
    Seq::new(64, |i: int| 0i8)
}

/// The two squares of the last move highlighted.
pub open spec fn move_tags(from: int, to: int) -> Seq<i8> {
    Seq::new(64, |i: int| if i == from || i == to { 2i8 } else { 0i8 })
}

/// A selected square and the squares its piece can go to highlighted.
pub open spec fn target_tags(square: int, targets: Seq<usize>) -> Seq<i8> {
    Seq::new(
        64,
        |i: int|
            if i == square {
                -1i8
            } else if targets.contains(i as usize) {
                1i8
            } else {
                0i8
            },
    )
}

/// The place of a square in the row-by-row order.
pub open spec fn square_index(row: int, col: int) -> int {
    row * 8 + col
}

/// Half of a number, rounded toward zero.
pub open spec fn half(n: int) -> int {
    if n >= 0 {
        n / 2
    } else {
        -((-n) / 2)
    }
}

/// The size of a number.
pub open spec fn magnitude(n: int) -> int {
    if n >= 0 {
        n
    } else {
        -n
    }
}

/// How many moves are left to the checkmate that a reply announces.
pub open spec fn turns_to_mate(reply: Reply) -> int {
    half(reply.checkmate_in as int) + if reply.score > 0 {
        -1int
    } else {
        1int
    }
}

/// The status line after a reply.
pub open spec fn reply_status(notation: Seq<char>, reply: Reply, scale: EngineScale) -> Seq<char> {
    let scored = notation + " (scr: "@ + signed_decimal(reply.score as int) + ")"@;
    if reply.state == scale.state_checkmate {
        "Checkmate, game terminated!"@
    } else if magnitude(reply.score as int) > scale.king_value_div_2 {
        scored + " Checkmate in "@ + signed_decimal(turns_to_mate(reply))
    } else {
        scored
    }
}

/// The player that an "engine plays this side" flag stands for.
pub open spec fn player_for(engine_plays: bool) -> PlayerKind {
    if engine_plays {
        PlayerKind::Engine
    } else {
        PlayerKind::Human
    }
}

/// The state of the window.
#[verifier::ext_equal]
pub struct AppModel {
    /// What stands on each square, row by row.
    pub board: Seq<Option<ColoredPiece>>,
    /// The selected square by row and column.
    pub selected: Option<(usize, usize)>,
    /// The tag of each square: 2 for the last move, 1 for a possible target,
    /// -1 for the selected square.
    pub square_tags: Seq<i8>,
    pub phase: Phase,
    pub status: Seq<char>,
    /// The player on each side, White first.
    pub players: Seq<PlayerKind>,
    pub engine_plays_white: bool,
    pub engine_plays_black: bool,
    pub use_solid_unicode: bool,
    pub rotated: bool,
    pub active: bool,
    /// The side to move: 0 for White, 1 for Black.
    pub turn: usize,
    /// A move that a person has asked for, as square indices.
    pub pending_move: Option<(usize, usize)>,
    /// The moves of the game as text.
    pub movelist: Seq<Seq<char>>,
    /// Whether an engine at work has been asked for a reply that is still due.
    pub awaiting_reply: bool,
}

impl AppModel {
    /// Every number that names a square or a side does name one.
    pub open spec fn valid(self) -> bool {
        &&& self.board.len() == 64
        &&& self.square_tags.len() == 64
        &&& self.players.len() == 2
        &&& self.turn < 2
        &&& (self.selected matches Some((row, col)) ==> row < 8 && col < 8)
        &&& (self.pending_move matches Some((from, to)) ==> from < 64 && to < 64)
    }

    /// What holds from the first state on: a move is attempted only where one
    /// between two different squares was asked for and nothing is selected, an
    /// engine that plays has a reply due, and the players are those that the
    /// flags call for.
    pub open spec fn consistent(self) -> bool {
        &&& self.valid()
        &&& (self.pending_move matches Some((from, to)) ==> from != to)
        &&& self.phase == Phase::MoveAttempt ==> self.pending_move is Some && self.selected is None
        &&& self.phase == Phase::EnginePlaying ==> self.awaiting_reply
        &&& self.players =~= seq![
            player_for(self.engine_plays_white),
            player_for(self.engine_plays_black),
        ]
    }

    /// The state in which the window opens on a game with the given codes.
    pub open spec fn initial(codes: Seq<i8>) -> AppModel {
        AppModel {
            board: decoded(codes),
            selected: None,
            square_tags: no_tags(),
            phase: Phase::Uninitialized,
            status: "Tiny chess"@,
            players: seq![PlayerKind::Human, PlayerKind::Engine],
            engine_plays_white: false,
            engine_plays_black: true,
            use_solid_unicode: false,
            rotated: false,
            active: true,
            turn: 0,
            pending_move: None,
            movelist: seq![],
            awaiting_reply: false,
        }
    }

    /// The clock that advances in a tick: that of the side to move, while a game
    /// is being played.
    pub open spec fn running_clock(self) -> Option<usize> {
        match self.phase {
            Phase::Ready | Phase::MoveAttempt | Phase::EngineThinking | Phase::EnginePlaying => Some(
                self.turn,
            ),
            Phase::Uninitialized | Phase::Inactive => None,
        }
    }

    /// What a tick in this state leaves to be done.
    pub open spec fn tick_action(self) -> TickAction {
        match self.phase {
            Phase::Uninitialized => TickAction::AskTurn,
            Phase::MoveAttempt => match self.pending_move {
                Some((from, to)) => TickAction::TryMove { from, to },
                None => TickAction::Rest,
            },
            Phase::EngineThinking => TickAction::StartEngine,
            Phase::EnginePlaying => if self.awaiting_reply {
                TickAction::PollReply
            } else {
                TickAction::Rest
            },
            Phase::Ready | Phase::Inactive => TickAction::Rest,
        }
    }

    /// The board brought up to date, where the game could be looked at.
    pub open spec fn synced(self, seen: Option<Seq<i8>>) -> AppModel {
        match seen {
            Some(codes) => AppModel { board: decoded(codes), ..self },
            None => self,
        }
    }

    /// After a tick.
    pub open spec fn ticked(self, seen: Option<Seq<i8>>) -> AppModel {
        let s = self.synced(seen);
        match self.phase {
            Phase::MoveAttempt => AppModel {
                pending_move: None,
                phase: Phase::Uninitialized,
                ..s
            },
            Phase::EngineThinking => AppModel {
                phase: Phase::EnginePlaying,
                awaiting_reply: true,
                ..s
            },
            _ => s,
        }
    }

    /// After the turn has been read off the game's move counter.
    pub open spec fn turn_decided(self, move_counter: nat) -> AppModel {
        let turn = move_counter % 2;
        AppModel {
            turn: turn as usize,
            phase: match self.players[turn as int] {
                PlayerKind::Human => Phase::Ready,
                PlayerKind::Engine => Phase::EngineThinking,
            },
            ..self
        }
    }

    /// After a person's move has been played under the given notation, or has
    /// been refused.
    pub open spec fn move_settled(
        self,
        from: usize,
        to: usize,
        notation: Option<Seq<char>>,
    ) -> AppModel {
        match notation {
            Some(notation) => AppModel {
                square_tags: move_tags(from as int, to as int),
                movelist: self.movelist.push(notation),
                status: notation,
                ..self
            },
            None => AppModel { square_tags: no_tags(), status: "Invalid move."@, ..self },
        }
    }

    /// After the engine's reply has been played under the given notation.
    pub open spec fn reply_settled(
        self,
        reply: Reply,
        notation: Seq<char>,
        scale: EngineScale,
    ) -> AppModel {
        AppModel {
            square_tags: move_tags(reply.src as int, reply.dst as int),
            movelist: self.movelist.push(notation),
            status: reply_status(notation, reply, scale),
            awaiting_reply: false,
            phase: if reply.state == scale.state_checkmate {
                Phase::Inactive
            } else {
                Phase::Uninitialized
            },
            ..self
        }
    }

    /// Whether a click on a square selects the piece on it.
    pub open spec fn click_selects(self, row: int, col: int) -> bool {
        &&& self.phase != Phase::Inactive
        &&& self.selected is None
        &&& self.board[square_index(row, col)] is Some
    }

    /// After a click on a square.
    pub open spec fn clicked(self, row: usize, col: usize) -> AppModel {
        if self.phase == Phase::Inactive {
            self
        } else {
            match self.selected {
                None => if self.click_selects(row as int, col as int) {
                    AppModel {
                        selected: Some((row, col)),
                        pending_move: None,
                        square_tags: no_tags(),
                        phase: Phase::Ready,
                        ..self
                    }
                } else {
                    self
                },
                Some(prev) => if prev != (row, col) {
                    AppModel {
                        pending_move: Some(
                            (
                                square_index(prev.0 as int, prev.1 as int) as usize,
                                square_index(row as int, col as int) as usize,
                            ),
                        ),
                        selected: None,
                        phase: Phase::MoveAttempt,
                        ..self
                    }
                } else {
                    AppModel {
                        selected: None,
                        pending_move: None,
                        square_tags: no_tags(),
                        ..self
                    }
                },
            }
        }
    }

    /// After the squares that a piece can go to have been marked.
    pub open spec fn targets_shown(self, square: usize, targets: Seq<usize>) -> AppModel {
        AppModel { square_tags: target_tags(square as int, targets), ..self }
    }

    /// After the engine has been put in or taken off White's seat.
    pub open spec fn white_toggled(self) -> AppModel {
        AppModel {
            engine_plays_white: !self.engine_plays_white,
            players: self.players.update(0, player_for(!self.engine_plays_white)),
            phase: Phase::Uninitialized,
            ..self
        }
    }

    /// After the engine has been put in or taken off Black's seat.
    pub open spec fn black_toggled(self) -> AppModel {
        AppModel {
            engine_plays_black: !self.engine_plays_black,
            players: self.players.update(1, player_for(!self.engine_plays_black)),
            phase: Phase::Uninitialized,
            ..self
        }
    }

    /// After the board has been turned around.
    pub open spec fn turned_around(self) -> AppModel {
        AppModel { rotated: !self.rotated, ..self }
    }

    /// After a new game has begun from the given codes.
    pub open spec fn restarted(self, codes: Seq<i8>) -> AppModel {
        AppModel {
            board: decoded(codes),
            square_tags: no_tags(),
            selected: None,
            pending_move: None,
            awaiting_reply: false,
            phase: Phase::Uninitialized,
            movelist: seq![],
            ..self
        }
    }
}

} // verus!
