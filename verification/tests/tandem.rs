use tandem_chess::tandem_game::{TandemGame, TandemMove};
use tandem_chess::types::Color;

fn mv(g: &mut TandemGame, line: &str, t: i64) -> bool {
    let m = TandemMove::from_string(line.to_string()).unwrap();
    g.move_piece_at(&m, t)
}

#[test]
fn simple_opening_is_accepted_and_clocks_stand() {
    let mut g = TandemGame::new();
    assert!(mv(&mut g, "1;W;e2;e4;;", 1_000));
    assert!(g.started);
    assert!(!g.finished);
    assert_eq!(g.games[0].last_move, "e2-e4");
    assert!(!g.games[0].last_move_capture);
    assert_eq!(g.games[0].turn, Color::Black);
    assert_eq!(g.games[0].white_time, 300_000);
    assert_eq!(g.games[0].black_time, 300_000);
    assert_eq!(g.games[1].white_time, 300_000);
}

#[test]
fn wrong_side_wrong_board_or_bad_square_rejects() {
    let mut g = TandemGame::new();
    // Black may not open on board 1
    assert!(!mv(&mut g, "1;B;e7;e5;;", 1_000));
    // target must be a square
    assert!(!mv(&mut g, "1;W;e2;zz;;", 1_000));
    // empty source square
    assert!(!mv(&mut g, "1;W;e3;e4;;", 1_000));
    // illegal move for the piece
    assert!(!mv(&mut g, "1;W;e2;e5;;", 1_000));
    // a king may never be a target, own or enemy
    assert!(!mv(&mut g, "1;W;d1;e1;;", 1_000));
    assert!(!mv(&mut g, "1;W;e1;e8;;", 1_000));
    assert!(!g.started);
}

#[test]
fn capture_feeds_the_mirror_inventory_on_the_other_board() {
    let mut g = TandemGame::new();
    assert!(mv(&mut g, "1;W;e2;e4;;", 10));
    assert!(mv(&mut g, "1;B;d7;d5;;", 20));
    assert!(mv(&mut g, "1;W;b1;c3;;", 30));
    // Black captures the e4 pawn: White gains a droppable pawn on board 2
    assert!(mv(&mut g, "1;B;d5;e4;;", 40));
    assert!(g.games[0].last_move_capture);
    assert_eq!(g.games[0].last_move, "d5-e4");
    assert_eq!(g.games[1].white_sp.pawn, 1);
    assert_eq!(g.games[1].black_sp.pawn, 0);
    assert_eq!(g.games[0].white_sp.pawn, 0);
}

#[test]
fn drop_without_inventory_rejects_and_changes_nothing() {
    let mut g = TandemGame::new();
    let before = g.get_fen(true);
    // board 2 holds no white pawn spare
    assert!(!mv(&mut g, "2;W;spare;e4;wP;", 0));
    // the occupied target square of the original scenario rejects too
    assert!(!mv(&mut g, "2;W;spare;e1;wP;", 0));
    assert_eq!(g.get_fen(true), before);
    assert_eq!(g.games[1].white_sp.pawn, 0);
    assert!(!g.started);
}

#[test]
fn pawn_drops_on_back_ranks_reject_and_elsewhere_succeed() {
    let mut g = TandemGame::new();
    // feed board 2 a white pawn spare: Black captures a white pawn on board 1
    assert!(mv(&mut g, "1;W;e2;e4;;", 10));
    assert!(mv(&mut g, "1;B;d7;d5;;", 20));
    assert!(mv(&mut g, "1;W;b1;c3;;", 30));
    assert!(mv(&mut g, "1;B;d5;e4;;", 40));
    assert_eq!(g.games[1].white_sp.pawn, 1);
    // rank 8 and rank 1 refuse a pawn
    assert!(!mv(&mut g, "2;W;spare;d8;wP;", 50));
    assert!(!mv(&mut g, "2;W;spare;d1;wP;", 50));
    assert_eq!(g.games[1].white_sp.pawn, 1);
    // a middle square takes it
    assert!(mv(&mut g, "2;W;spare;d4;wP;", 60));
    assert_eq!(g.games[1].white_sp.pawn, 0);
    assert_eq!(g.games[1].turn, Color::Black);
    assert_eq!(g.games[1].last_move, "spare-d4");
    // the drop spec color pays, and a drop needs the moving side's turn
    assert!(!mv(&mut g, "2;W;spare;d5;wP;", 70));
}

#[test]
fn dropped_knight_mate_rejects_at_any_range() {
    let mut g = TandemGame::new();
    // board 1: Black wins a white knight for board 2
    assert!(mv(&mut g, "1;W;b1;c3;;", 10));
    assert!(mv(&mut g, "1;B;d7;d5;;", 20));
    assert!(mv(&mut g, "1;W;c3;e4;;", 30));
    assert!(mv(&mut g, "1;B;d5;e4;;", 40));
    assert_eq!(g.games[1].white_sp.knight, 1);
    // board 2: Black walls its king in at h8 behind g7, h7 and a rook on g8
    assert!(mv(&mut g, "2;W;a2;a3;;", 50));
    assert!(mv(&mut g, "2;B;f7;f5;;", 60));
    assert!(mv(&mut g, "2;W;b2;b3;;", 70));
    assert!(mv(&mut g, "2;B;e7;e6;;", 80));
    assert!(mv(&mut g, "2;W;c2;c3;;", 90));
    assert!(mv(&mut g, "2;B;f8;e7;;", 100));
    assert!(mv(&mut g, "2;W;d2;d3;;", 110));
    assert!(mv(&mut g, "2;B;g8;f6;;", 120));
    assert!(mv(&mut g, "2;W;a3;a4;;", 130));
    assert!(mv(&mut g, "2;B;e8;g8;;", 140));
    assert!(mv(&mut g, "2;W;b3;b4;;", 150));
    assert!(mv(&mut g, "2;B;g8;h8;;", 160));
    assert!(mv(&mut g, "2;W;c3;c4;;", 170));
    assert!(mv(&mut g, "2;B;f8;g8;;", 180));
    // the smothering knight drop on f7 would be immediate mate: refused
    assert!(!mv(&mut g, "2;W;spare;f7;wN;", 190));
    assert_eq!(g.games[1].white_sp.knight, 1);
    assert!(!g.finished);
}

#[test]
fn contact_drop_mate_rejects_but_long_range_drop_mate_is_allowed() {
    // contact: a protected queen dropped next to the king
    let mut g = TandemGame::new();
    // board 1: Black captures the white queen, so White gains a queen
    // spare on board 2
    assert!(mv(&mut g, "1;W;e2;e4;;", 10));
    assert!(mv(&mut g, "1;B;d7;d5;;", 20));
    assert!(mv(&mut g, "1;W;e4;d5;;", 30));
    assert!(mv(&mut g, "1;B;d8;d5;;", 40));
    assert!(mv(&mut g, "1;W;d1;h5;;", 50));
    assert!(mv(&mut g, "1;B;d5;h5;;", 60));
    assert_eq!(g.games[1].white_sp.queen, 1);
    // board 2: f7 falls open, a bishop covers it, the queen drop would be
    // a contact mate: refused
    assert!(mv(&mut g, "2;W;e2;e4;;", 80));
    assert!(mv(&mut g, "2;B;f7;f5;;", 90));
    assert!(mv(&mut g, "2;W;e4;f5;;", 100));
    assert!(mv(&mut g, "2;B;b8;c6;;", 110));
    assert!(mv(&mut g, "2;W;f1;c4;;", 120));
    assert!(mv(&mut g, "2;B;a7;a6;;", 130));
    assert!(!mv(&mut g, "2;W;spare;f7;wQ;", 140));
    assert_eq!(g.games[1].white_sp.queen, 1);
    assert!(!g.finished);

    // long range: the fool's-mate queen drop lands and does not finish
    let mut h = TandemGame::new();
    assert!(mv(&mut h, "1;W;e2;e4;;", 10));
    assert!(mv(&mut h, "1;B;d7;d5;;", 20));
    assert!(mv(&mut h, "1;W;e4;d5;;", 30));
    assert!(mv(&mut h, "1;B;d8;d5;;", 40));
    assert!(mv(&mut h, "1;W;d1;g4;;", 50));
    assert!(mv(&mut h, "1;B;d5;g5;;", 60));
    assert!(mv(&mut h, "1;W;g4;g5;;", 70));
    assert_eq!(h.games[1].black_sp.queen, 1);
    assert!(mv(&mut h, "2;W;f2;f3;;", 80));
    assert!(mv(&mut h, "2;B;e7;e6;;", 90));
    assert!(mv(&mut h, "2;W;g2;g4;;", 100));
    assert!(mv(&mut h, "2;B;spare;h4;bQ;", 110));
    assert_eq!(h.games[1].black_sp.queen, 0);
    assert_eq!(h.games[1].last_move, "spare-h4");
    assert!(!h.finished);
    // board 2's White is checkmated and can do nothing, board 1 plays on
    assert!(!mv(&mut h, "2;W;a2;a3;;", 120));
    assert!(mv(&mut h, "1;B;g8;f6;;", 130));
}

#[test]
fn contact_mate_by_a_normal_move_finishes_the_game() {
    let mut g = TandemGame::new();
    // scholar's mate on board 1: the mating queen lands beside the king
    assert!(mv(&mut g, "1;W;e2;e4;;", 10));
    assert!(mv(&mut g, "1;B;e7;e5;;", 20));
    assert!(mv(&mut g, "1;W;f1;c4;;", 30));
    assert!(mv(&mut g, "1;B;b8;c6;;", 40));
    assert!(mv(&mut g, "1;W;d1;h5;;", 50));
    assert!(mv(&mut g, "1;B;g8;f6;;", 60));
    assert!(mv(&mut g, "1;W;h5;f7;;", 70));
    assert!(g.finished);
    assert!(g.games[0].last_move_capture);
    // a finished game accepts nothing on either board
    assert!(!mv(&mut g, "1;B;f6;e4;;", 80));
    assert!(!mv(&mut g, "2;W;e2;e4;;", 80));
}

#[test]
fn far_range_mate_by_a_normal_move_does_not_finish() {
    let mut g = TandemGame::new();
    // fool's mate on board 1: the queen mates from four squares away
    assert!(mv(&mut g, "1;W;f2;f3;;", 10));
    assert!(mv(&mut g, "1;B;e7;e6;;", 20));
    assert!(mv(&mut g, "1;W;g2;g4;;", 30));
    assert!(mv(&mut g, "1;B;d8;h4;;", 40));
    assert!(!g.finished);
    // the variant holds the game open: a drop could still defuse it
    assert!(mv(&mut g, "2;W;e2;e4;;", 50));
}

#[test]
fn cross_board_promotion_consumes_a_piece_of_the_other_board() {
    let mut g = TandemGame::new();
    assert!(mv(&mut g, "1;W;e2;e4;;", 10));
    assert!(mv(&mut g, "1;B;d7;d5;;", 20));
    assert!(mv(&mut g, "1;W;e4;d5;;", 30));
    assert!(mv(&mut g, "1;B;c7;c6;;", 40));
    assert!(mv(&mut g, "1;W;d5;c6;;", 50));
    assert!(mv(&mut g, "1;B;h7;h6;;", 60));
    assert!(mv(&mut g, "1;W;c6;b7;;", 70));
    assert!(mv(&mut g, "1;B;h6;h5;;", 80));
    // a promotion must name a square of the mover's color on the other board
    assert!(!mv(&mut g, "1;W;b7;a8;;e7", 90));
    // and never a king: no legal move promotes to one
    assert!(!mv(&mut g, "1;W;b7;a8;;e1", 90));
    // and without any promotion source it is refused outright
    assert!(!mv(&mut g, "1;W;b7;a8;;", 90));
    assert!(!mv(&mut g, "1;W;b7;a8;;z9", 90));
    // pointing at board 2's a1 rook promotes to a rook and consumes it
    assert!(mv(&mut g, "1;W;b7;a8;;a1", 100));
    assert_eq!(g.games[0].last_move, "b7-a8");
    // board 2 lost its a1 rook and got the pawn back as a White spare
    assert_eq!(g.games[1].white_sp.pawn, 1);
    #[allow(deprecated)]
    let cleared = chess::Board::default().clear_square(chess::Square::A1).unwrap();
    let snapshot = g.get_fen(true);
    assert!(snapshot.contains(&cleared.to_string()));
    // board 1's captures piled up as Black spares for board 2
    assert_eq!(g.games[1].black_sp.pawn, 3);
    assert_eq!(g.games[1].black_sp.rook, 1);
    assert_eq!(g.games[1].black_sp.queen, 0);
}

#[test]
fn tick_reports_once_and_flag_fall_finishes_everything() {
    let mut g = TandemGame::new();
    assert!(mv(&mut g, "1;W;e2;e4;;", 1_000));
    // first poll seeds the clock and reports the first readout
    assert!(g.should_update_at(2_000));
    // a second poll with no time advance reports nothing
    assert!(!g.should_update_at(2_000));
    // five minutes later every running clock is at zero
    assert!(g.should_update_at(2_000 + 301_000));
    assert!(g.finished);
    assert_eq!(g.games[0].black_time, 0);
    assert_eq!(g.games[1].white_time, 0);
    // and no move is accepted on either board any more
    assert!(!mv(&mut g, "1;W;e2;e3;;", 2_000 + 301_000));
    assert!(!mv(&mut g, "2;W;e2;e4;;", 2_000 + 301_000));
    // once finished, polls stay silent
    assert!(!g.should_update_at(2_000 + 400_000));
}

#[test]
fn clocks_do_not_run_before_the_first_move() {
    let mut g = TandemGame::new();
    g.synchronize_time_at(5_000_000);
    assert_eq!(g.games[0].white_time, 300_000);
    assert_eq!(g.games[0].black_time, 300_000);
    assert_eq!(g.games[1].white_time, 300_000);
    assert_eq!(g.games[1].black_time, 300_000);
    assert!(!g.finished);
}

#[test]
fn reset_restores_a_fresh_game() {
    let mut g = TandemGame::new();
    let fresh = g.get_fen(true);
    assert!(mv(&mut g, "1;W;e2;e4;;", 1_000));
    assert!(mv(&mut g, "1;B;d7;d5;;", 2_000));
    assert!(mv(&mut g, "1;W;e4;d5;;", 3_000));
    assert!(g.should_update_at(400_000) || true);
    g.reset();
    assert!(!g.started);
    assert!(!g.finished);
    assert_eq!(g.get_fen(true), fresh);
    assert_eq!(g.get_fen(true), TandemGame::new().get_fen(true));
}
