use chess_gui::panel::settings_panel;
use chess_gui::state::AppState;
use chess_gui::text::{decimal_text, signed_decimal_text};

fn with_moves(moves: &[&str]) -> AppState {
    let mut state = AppState::new([0; 64]);
    for m in moves {
        state.movelist.push(m.to_string());
    }
    state
}

#[test]
fn numbers_are_written_in_decimal() {
    for n in [0, 7, 9, 10, 60, 99, 100, 1234567890, u64::MAX] {
        assert_eq!(decimal_text(n), format!("{}", n));
    }
    for n in [0, 5, -5, -10, 4000, i64::MAX, i64::MIN, i64::MIN + 1] {
        assert_eq!(signed_decimal_text(n), format!("{}", n));
    }
}

#[test]
fn clock_shows_minutes_and_seconds() {
    assert_eq!(AppState::formatted_clock(0), "00:00");
    assert_eq!(AppState::formatted_clock(59), "00:59");
    assert_eq!(AppState::formatted_clock(60), "01:00");
    assert_eq!(AppState::formatted_clock(605), "10:05");
    assert_eq!(AppState::formatted_clock(6000), "100:00");
    assert_eq!(AppState::formatted_clock(u64::MAX), format!("{}:15", u64::MAX / 60));
}

#[test]
fn clock_tells_times_apart() {
    assert_ne!(AppState::formatted_clock(61), AppState::formatted_clock(601));
    assert_ne!(AppState::formatted_clock(10), AppState::formatted_clock(600));
}

#[test]
fn no_moves_make_no_text() {
    assert_eq!(with_moves(&[]).movelist_text(), "");
}

#[test]
fn moves_are_numbered_in_pairs() {
    assert_eq!(with_moves(&["e2e4"]).movelist_text(), "  1.    e2e4");
    assert_eq!(with_moves(&["e2e4", "e7e5"]).movelist_text(), "  1.    e2e4  e7e5");
    assert_eq!(
        with_moves(&["e2e4", "e7e5", "Ng1f3"]).movelist_text(),
        "  1.    e2e4  e7e5\n  2.   Ng1f3"
    );
}

#[test]
fn long_moves_and_numbers_are_not_cut() {
    let mut moves: Vec<&str> = Vec::new();
    for _ in 0..1998 {
        moves.push("a");
    }
    moves.push("Ng1xh3+ e.p.");
    let text = with_moves(&moves).movelist_text();
    assert!(text.ends_with("\n999.       a  a\n1000. Ng1xh3+ e.p."));
    assert_eq!(text.lines().count(), 1000);
}

#[test]
fn padding_counts_characters() {
    assert_eq!(
        with_moves(&["\u{2654}e1\u{2013}e2"]).movelist_text(),
        format!("{:>3}. {:>7}", 1, "\u{2654}e1\u{2013}e2")
    );
}

#[test]
fn text_matches_the_formatter() {
    let moves = ["e2e4", "c7c5", "Ng1-f3", "d7-d6", "O-O", "Qd8xd4+"];
    for n in 0..moves.len() + 1 {
        let expected = moves[..n]
            .chunks(2)
            .enumerate()
            .map(|(idx, chunk)| match chunk {
                [a, b] => format!("{:>3}. {:>7}  {}", idx + 1, a, b),
                [a] => format!("{:>3}. {:>7}", idx + 1, a),
                _ => unreachable!(),
            })
            .collect::<Vec<_>>()
            .join("\n");
        assert_eq!(with_moves(&moves[..n]).movelist_text(), expected);
    }
}

#[test]
fn panel_gathers_the_texts() {
    let state = with_moves(&["e2e4", "e7e5"]);
    let panel = settings_panel(&state, 65, 3600);
    assert_eq!(panel.status, "Tiny chess");
    assert_eq!(panel.white, "White: 01:05");
    assert_eq!(panel.black, "Black: 60:00");
    assert_eq!(panel.movelist, "  1.    e2e4  e7e5");
}
