use chess_gui::model::{EngineScale, Phase, PlayerKind, Reply, TickAction};
use chess_gui::pieces::{Board, ColoredPiece, Piece, Side};
use chess_gui::state::{move_is_allowed, player_for_engine_flag, AppState};

const SCALE: EngineScale = EngineScale { state_checkmate: 3, king_value_div_2: 16000 };

fn pawns() -> Board {
    let mut board: Board = [0; 64];
    board[11] = 1;
    board[51] = -1;
    board
}

fn reply(score: i64, state: i64, checkmate_in: i64) -> Reply {
    Reply { src: 51, dst: 35, score, state, checkmate_in }
}

/// A state in which the engine has been started for Black.
fn engine_playing() -> AppState {
    let mut state = AppState::new(pawns());
    state.decide_turn(1);
    state.tick(None);
    assert_eq!(state.phase, Phase::EnginePlaying);
    state
}

#[test]
fn window_opens_waiting_for_the_turn() {
    let state = AppState::new(pawns());
    assert_eq!(state.board[1][3], Some(ColoredPiece { piece: Piece::Pawn, side: Side::White }));
    assert_eq!(state.selected, None);
    assert_eq!(state.square_tags, [0; 64]);
    assert_eq!(state.phase, Phase::Uninitialized);
    assert_eq!(state.status, "Tiny chess");
    assert_eq!(state.players, [PlayerKind::Human, PlayerKind::Engine]);
    assert!(!state.engine_plays_white);
    assert!(state.engine_plays_black);
    assert!(!state.use_solid_unicode);
    assert!(!state.rotated);
    assert!(state.active);
    assert_eq!(state.turn, 0);
    assert_eq!(state.pending_move, None);
    assert!(state.movelist.is_empty());
    assert!(!state.awaiting_reply);
}

#[test]
fn turn_follows_the_move_counter() {
    let mut state = AppState::new(pawns());
    let plan = state.tick(None);
    assert_eq!(plan.action, TickAction::AskTurn);
    assert_eq!(plan.clock, None);
    assert_eq!(state.phase, Phase::Uninitialized);
    state.decide_turn(0);
    assert_eq!((state.turn, state.phase), (0, Phase::Ready));
    state.decide_turn(7);
    assert_eq!((state.turn, state.phase), (1, Phase::EngineThinking));
    state.decide_turn(8);
    assert_eq!((state.turn, state.phase), (0, Phase::Ready));
    state.decide_turn(usize::MAX);
    assert_eq!(state.turn, 1);
}

#[test]
fn ticks_sync_the_board_where_it_was_seen() {
    let mut state = AppState::new([0; 64]);
    state.tick(None);
    assert_eq!(state.board[1][3], None);
    state.tick(Some(pawns()));
    assert_eq!(state.board[1][3], Some(ColoredPiece { piece: Piece::Pawn, side: Side::White }));
    assert_eq!(state.board[6][3], Some(ColoredPiece { piece: Piece::Pawn, side: Side::Black }));
    assert_eq!(state.board[0][0], None);
}

#[test]
fn idle_ticks_leave_the_phase() {
    let mut state = AppState::new(pawns());
    state.decide_turn(0);
    let plan = state.tick(None);
    assert_eq!((plan.clock, plan.action), (Some(0), TickAction::Rest));
    assert_eq!(state.phase, Phase::Ready);
}

#[test]
fn first_click_selects_a_piece() {
    let mut state = AppState::new(pawns());
    state.pending_move = Some((1, 2));
    state.square_tags[5] = 2;
    assert_eq!(state.click(1, 3), Some(11));
    assert_eq!(state.selected, Some((1, 3)));
    assert_eq!(state.pending_move, None);
    assert_eq!(state.square_tags, [0; 64]);
    assert_eq!(state.phase, Phase::Ready);
    state.show_targets(11, &vec![19, 27, 27]);
    let mut tags: Board = [0; 64];
    tags[11] = -1;
    tags[19] = 1;
    tags[27] = 1;
    assert_eq!(state.square_tags, tags);
}

#[test]
fn selected_square_outranks_a_target() {
    let mut state = AppState::new(pawns());
    state.show_targets(11, &vec![11, 0, 63]);
    assert_eq!(state.square_tags[11], -1);
    assert_eq!(state.square_tags[0], 1);
    assert_eq!(state.square_tags[63], 1);
}

#[test]
fn click_on_an_empty_square_does_nothing() {
    let mut state = AppState::new(pawns());
    state.square_tags[5] = 2;
    assert_eq!(state.click(3, 3), None);
    assert_eq!(state.selected, None);
    assert_eq!(state.phase, Phase::Uninitialized);
    assert_eq!(state.square_tags[5], 2);
}

#[test]
fn second_click_on_the_square_deselects() {
    let mut state = AppState::new(pawns());
    state.click(1, 3);
    state.show_targets(11, &vec![19]);
    assert_eq!(state.click(1, 3), None);
    assert_eq!(state.selected, None);
    assert_eq!(state.pending_move, None);
    assert_eq!(state.square_tags, [0; 64]);
    assert_eq!(state.phase, Phase::Ready);
}

#[test]
fn two_clicks_attempt_a_move() {
    let mut state = AppState::new(pawns());
    state.decide_turn(0);
    state.click(1, 3);
    state.show_targets(11, &vec![19, 27]);
    assert_eq!(state.click(3, 3), None);
    assert_eq!(state.selected, None);
    assert_eq!(state.pending_move, Some((11, 27)));
    assert_eq!(state.phase, Phase::MoveAttempt);
    assert_eq!(state.square_tags[19], 1);
    let plan = state.tick(None);
    assert_eq!(plan.clock, Some(0));
    assert_eq!(plan.action, TickAction::TryMove { from: 11, to: 27 });
    assert_eq!(state.pending_move, None);
    assert_eq!(state.phase, Phase::Uninitialized);
}

#[test]
fn attempt_without_a_move_is_dropped() {
    let mut state = AppState::new(pawns());
    state.phase = Phase::MoveAttempt;
    let plan = state.tick(None);
    assert_eq!((plan.clock, plan.action), (Some(0), TickAction::Rest));
    assert_eq!(state.phase, Phase::Uninitialized);
}

#[test]
fn moves_must_be_valid_and_change_squares() {
    assert!(move_is_allowed(11, 27, true));
    assert!(!move_is_allowed(11, 27, false));
    assert!(!move_is_allowed(11, 11, true));
    assert!(!move_is_allowed(11, 11, false));
}

#[test]
fn refused_move_is_reported() {
    let mut state = AppState::new(pawns());
    state.square_tags[9] = 1;
    state.settle_move(11, 35, None);
    assert_eq!(state.status, "Invalid move.");
    assert_eq!(state.square_tags, [0; 64]);
    assert!(state.movelist.is_empty());
}

#[test]
fn played_move_is_recorded() {
    let mut state = AppState::new(pawns());
    state.square_tags[9] = 1;
    state.settle_move(11, 27, Some("d2d4".to_string()));
    assert_eq!(state.status, "d2d4");
    assert_eq!(state.movelist, vec!["d2d4".to_string()]);
    let mut tags: Board = [0; 64];
    tags[11] = 2;
    tags[27] = 2;
    assert_eq!(state.square_tags, tags);
    assert_eq!(state.movelist_text(), "  1.    d2d4");
}

#[test]
fn engine_is_started_and_polled() {
    let mut state = AppState::new(pawns());
    state.decide_turn(1);
    let plan = state.tick(None);
    assert_eq!((plan.clock, plan.action), (Some(1), TickAction::StartEngine));
    assert_eq!(state.phase, Phase::EnginePlaying);
    assert!(state.awaiting_reply);
    let plan = state.tick(None);
    assert_eq!((plan.clock, plan.action), (Some(1), TickAction::PollReply));
    assert_eq!(state.phase, Phase::EnginePlaying);
    state.awaiting_reply = false;
    assert_eq!(state.tick(None).action, TickAction::Rest);
}

#[test]
fn reply_is_recorded_with_its_score() {
    let mut state = engine_playing();
    state.settle_reply(reply(-35, 0, 0), "d7d5".to_string(), SCALE);
    assert_eq!(state.status, "d7d5 (scr: -35)");
    assert_eq!(state.movelist, vec!["d7d5".to_string()]);
    assert_eq!(state.phase, Phase::Uninitialized);
    assert!(!state.awaiting_reply);
    let mut tags: Board = [0; 64];
    tags[51] = 2;
    tags[35] = 2;
    assert_eq!(state.square_tags, tags);
}

#[test]
fn checkmate_in_sight_is_announced() {
    for (score, checkmate_in, tail) in [
        (16001, 5, " Checkmate in 1"),
        (16001, 0, " Checkmate in -1"),
        (-16001, 5, " Checkmate in 3"),
        (-16001, -3, " Checkmate in 0"),
        (16001, -3, " Checkmate in -2"),
        (16000, 5, ""),
        (-16000, 5, ""),
    ] {
        let mut state = engine_playing();
        state.settle_reply(reply(score, 0, checkmate_in), "Qd8h4".to_string(), SCALE);
        assert_eq!(state.status, format!("Qd8h4 (scr: {}){}", score, tail));
        assert_eq!(state.phase, Phase::Uninitialized);
    }
}

#[test]
fn checkmate_ends_the_game() {
    let mut state = engine_playing();
    state.settle_reply(reply(20000, 3, 0), "Qd8h4".to_string(), SCALE);
    assert_eq!(state.status, "Checkmate, game terminated!");
    assert_eq!(state.phase, Phase::Inactive);
    assert_eq!(state.movelist, vec!["Qd8h4".to_string()]);
    assert_eq!(state.click(1, 3), None);
    assert_eq!(state.selected, None);
    assert_eq!(state.phase, Phase::Inactive);
    let plan = state.tick(None);
    assert_eq!((plan.clock, plan.action), (None, TickAction::Rest));
    assert_eq!(state.phase, Phase::Inactive);
}

#[test]
fn checkmate_counts_whatever_the_score() {
    let mut state = engine_playing();
    state.settle_reply(reply(i64::MIN, 3, 0), "Qd8h4".to_string(), SCALE);
    assert_eq!(state.status, "Checkmate, game terminated!");
}

#[test]
fn checkboxes_seat_the_engine() {
    assert_eq!(player_for_engine_flag(false), PlayerKind::Human);
    assert_eq!(player_for_engine_flag(true), PlayerKind::Engine);
    let mut state = AppState::new(pawns());
    state.decide_turn(0);
    state.toggle_engine_white();
    assert!(state.engine_plays_white);
    assert_eq!(state.players, [PlayerKind::Engine, PlayerKind::Engine]);
    assert_eq!(state.phase, Phase::Uninitialized);
    state.toggle_engine_black();
    assert!(!state.engine_plays_black);
    assert_eq!(state.players, [PlayerKind::Engine, PlayerKind::Human]);
    state.toggle_engine_white();
    state.toggle_engine_black();
    assert_eq!(state.players, [PlayerKind::Human, PlayerKind::Engine]);
    assert!(!state.engine_plays_white);
    assert!(state.engine_plays_black);
}

#[test]
fn new_game_keeps_the_settings() {
    let mut state = engine_playing();
    state.rotate();
    state.toggle_engine_white();
    state.settle_move(11, 27, Some("d2d4".to_string()));
    state.click(1, 3);
    state.pending_move = Some((11, 27));
    state.awaiting_reply = true;
    state.new_game([0; 64]);
    assert_eq!(state.board[1][3], None);
    assert_eq!(state.square_tags, [0; 64]);
    assert_eq!(state.selected, None);
    assert_eq!(state.pending_move, None);
    assert!(!state.awaiting_reply);
    assert_eq!(state.phase, Phase::Uninitialized);
    assert!(state.movelist.is_empty());
    assert!(state.rotated);
    assert_eq!(state.players, [PlayerKind::Engine, PlayerKind::Engine]);
    assert_eq!(state.status, "d2d4");
    assert_eq!(state.turn, 1);
}

#[test]
fn a_move_and_its_answer() {
    let mut state = AppState::new(pawns());
    assert_eq!(state.tick(Some(pawns())).action, TickAction::AskTurn);
    state.decide_turn(0);
    assert_eq!(state.click(1, 3), Some(11));
    state.show_targets(11, &vec![19, 27]);
    assert_eq!(state.click(3, 3), None);
    assert_eq!(state.tick(Some(pawns())).action, TickAction::TryMove { from: 11, to: 27 });
    state.settle_move(11, 27, Some("d2d4".to_string()));
    assert_eq!(state.tick(None).action, TickAction::AskTurn);
    state.decide_turn(1);
    assert_eq!(state.tick(None).action, TickAction::StartEngine);
    assert_eq!(state.tick(None).action, TickAction::PollReply);
    state.settle_reply(reply(12, 0, 0), "d7d5".to_string(), SCALE);
    assert_eq!(state.tick(None).action, TickAction::AskTurn);
    state.decide_turn(2);
    assert_eq!(state.phase, Phase::Ready);
    assert_eq!(state.movelist_text(), "  1.    d2d4  d7d5");
}
