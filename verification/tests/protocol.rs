use tandem_chess::tandem_game::{classify_frame, heartbeat_due, Frame, TandemMove};
use tandem_chess::types::Color;

fn parse(line: &str) -> Option<TandemMove> {
    TandemMove::from_string(line.to_string())
}

#[test]
fn parses_a_simple_opening_line() {
    let m = parse("1;W;e2;e4;;").unwrap();
    assert_eq!(m.board, 1);
    assert_eq!(m.color, Color::White);
    assert_eq!(m.source, "e2");
    assert_eq!(m.target, "e4");
    assert_eq!(m.piece, "");
    assert_eq!(m.promotion, "");
}

#[test]
fn parses_a_drop_line_for_board_two() {
    let m = parse("2;B;spare;e5;bN;").unwrap();
    assert_eq!(m.board, 2);
    assert_eq!(m.color, Color::Black);
    assert_eq!(m.source, "spare");
    assert_eq!(m.target, "e5");
    assert_eq!(m.piece, "bN");
    assert_eq!(m.promotion, "");
}

#[test]
fn any_color_tag_but_w_means_black() {
    assert_eq!(parse("1;B;e7;e5;;").unwrap().color, Color::Black);
    assert_eq!(parse("1;x;e7;e5;;").unwrap().color, Color::Black);
    assert_eq!(parse("1;;e7;e5;;").unwrap().color, Color::Black);
}

#[test]
fn board_number_must_be_one_or_two() {
    assert!(parse("0;W;e2;e4;;").is_none());
    assert!(parse("3;W;e2;e4;;").is_none());
    assert!(parse("256;W;e2;e4;;").is_none());
    assert!(parse("x;W;e2;e4;;").is_none());
    assert!(parse(";W;e2;e4;;").is_none());
}

#[test]
fn a_plus_sign_is_accepted_as_std_does() {
    let m = parse("+1;W;e2;e4;;").unwrap();
    assert_eq!(m.board, 1);
    assert_eq!(parse("002;W;e2;e4;;").unwrap().board, 2);
    assert!(parse("+;W;e2;e4;;").is_none());
}

#[test]
fn arity_other_than_six_rejects() {
    assert!(parse("1;W;e2;e4;").is_none());
    assert!(parse("1;W;e2;e4;;;").is_none());
    assert!(parse("1;W;e2").is_none());
    assert!(parse("Reset Game").is_none());
    assert!(parse("").is_none());
}

#[test]
fn printed_line_parses_back_to_the_same_descriptor() {
    for line in ["1;W;e2;e4;;", "2;B;spare;e5;bN;", "1;W;b7;a8;;a1", "2;B;a7;a5;wQ;h8"] {
        let m = parse(line).unwrap();
        let printed = m.to_line();
        let again = parse(&printed).unwrap();
        assert_eq!(again.board, m.board);
        assert_eq!(again.color, m.color);
        assert_eq!(again.source, m.source);
        assert_eq!(again.target, m.target);
        assert_eq!(again.piece, m.piece);
        assert_eq!(again.promotion, m.promotion);
    }
}

#[test]
fn frames_classify_as_reset_move_or_noise() {
    assert!(matches!(classify_frame("Reset Game".to_string()), Frame::Reset));
    assert!(matches!(classify_frame("1;W;e2;e4;;".to_string()), Frame::Move(_)));
    assert!(matches!(classify_frame("reset game".to_string()), Frame::Ignore));
    assert!(matches!(classify_frame("9;W;e2;e4;;".to_string()), Frame::Ignore));
    assert!(matches!(classify_frame("".to_string()), Frame::Ignore));
}

#[test]
fn heartbeat_fires_on_change_or_after_a_hundred_silent_polls() {
    assert!(heartbeat_due(true, 0));
    assert!(!heartbeat_due(false, 0));
    assert!(!heartbeat_due(false, 99));
    assert!(heartbeat_due(false, 100));
}

#[test]
fn printing_normalizes_only_the_tags() {
    let m = parse("02;x;a1;h8;;").unwrap();
    assert_eq!(m.to_line(), "2;B;a1;h8;;");
}
