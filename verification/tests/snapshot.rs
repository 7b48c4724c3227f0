use tandem_chess::tandem_game::{TandemGame, TandemMove};

#[test]
fn initial_snapshot_is_the_standard_opening() {
    let g = TandemGame::new();
    let start = chess::Board::default().to_string();
    let board = format!(
        "{{\"fen\":\"{}\",\"last_move_capture\":false,\"white_sp\":[0,0,0,0,0],\
         \"black_sp\":[0,0,0,0,0],\"white_time\":\"5:00\",\"black_time\":\"5:00\",\
         \"last_move\":\"\"}}",
        start
    );
    let expected = format!("{{\"valid\":true,\"board_1\":{},\"board_2\":{}}}", board, board);
    assert_eq!(g.get_fen(true), expected);
}

#[test]
fn snapshots_are_valid_json_with_the_documented_shape() {
    let mut g = TandemGame::new();
    let m = TandemMove::from_string("1;W;e2;e4;;".to_string()).unwrap();
    assert!(g.move_piece_at(&m, 1_000));
    let v: serde_json::Value = serde_json::from_str(&g.get_fen(true)).unwrap();
    assert_eq!(v["valid"].as_bool(), Some(true));
    let after_e4 = chess::Board::default()
        .make_move_new(chess::ChessMove::new(chess::Square::E2, chess::Square::E4, None))
        .to_string();
    assert_eq!(v["board_1"]["fen"].as_str(), Some(after_e4.as_str()));
    assert_eq!(v["board_1"]["last_move"].as_str(), Some("e2-e4"));
    assert_eq!(v["board_1"]["last_move_capture"].as_bool(), Some(false));
    assert_eq!(v["board_1"]["white_time"].as_str(), Some("5:00"));
    assert_eq!(v["board_1"]["black_time"].as_str(), Some("5:00"));
    assert_eq!(v["board_2"]["fen"].as_str(), Some(chess::Board::default().to_string().as_str()));
    let sp = v["board_2"]["white_sp"].as_array().unwrap();
    assert_eq!(sp.len(), 5);
    assert!(sp.iter().all(|c| c.as_i64() == Some(0)));
}

#[test]
fn a_rejection_echo_carries_valid_false() {
    let g = TandemGame::new();
    let s = g.get_fen(false);
    let v: serde_json::Value = serde_json::from_str(&s).unwrap();
    assert_eq!(v["valid"].as_bool(), Some(false));
}

#[test]
fn clock_readout_rounds_seconds_up() {
    let mut g = TandemGame::new();
    let m = TandemMove::from_string("1;W;e2;e4;;".to_string()).unwrap();
    assert!(g.move_piece_at(&m, 1_000));
    // seed the clock, then let 1.5 seconds pass: Black on board 1 is
    // debited down to 298.5 s, shown as ceiling 299
    g.synchronize_time_at(10_000);
    g.synchronize_time_at(11_500);
    let v: serde_json::Value = serde_json::from_str(&g.get_fen(true)).unwrap();
    assert_eq!(v["board_1"]["black_time"].as_str(), Some("4:59"));
    assert_eq!(v["board_1"]["white_time"].as_str(), Some("5:00"));
}
