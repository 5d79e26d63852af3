use uci_ab_test::clock::Clock;
use uci_ab_test::contest::{Contest, Policy};
use uci_ab_test::protocol::{
    protocol_ack, ready_ack, scan_name, scan_reply, Engine, Player, Reply,
};
use uci_ab_test::tune::FeatureVector;
use uci_ab_test::uci_move::{move_from_uci, Promotion, Square, UciMove};

const START: &str = "rnbqkbnr/pppppppp/8/8/8/8/PPPPPPPP/RNBQKBNR w KQkq - 0 1";

fn lenient() -> Policy {
    Policy { illegal_move_forfeits: true, claim_draws: true }
}

#[test]
fn parses_plain_move() {
    let m = move_from_uci("e2e4");
    assert_eq!(m.source, Square { file: 4, rank: 1 });
    assert_eq!(m.dest, Square { file: 4, rank: 3 });
    assert_eq!(m.promotion, None);
}

#[test]
fn parses_promotion() {
    let m = move_from_uci("a7a8q");
    assert_eq!(m.source, Square { file: 0, rank: 6 });
    assert_eq!(m.dest, Square { file: 0, rank: 7 });
    assert_eq!(m.promotion, Some(Promotion::Queen));
    assert_eq!(move_from_uci("h2h1n").promotion, Some(Promotion::Knight));
}

#[test]
fn rejects_malformed_moves() {
    for text in ["e2", "e9e4", "i2e4", "e2e4qq", "E2E4"] {
        assert_eq!(scan_reply(&format!("bestmove {text}")), Reply::Malformed);
    }
}

#[test]
fn other_fifth_letter_is_a_plain_move() {
    let m = move_from_uci("e2e4x");
    assert_eq!(m, move_from_uci("e2e4"));
    assert_eq!(m.promotion, None);
    assert_eq!(scan_reply("bestmove e7e8k"), Reply::BestMove(move_from_uci("e7e8")));
}

#[test]
fn move_text_round_trips() {
    for text in ["e2e4", "g8f6", "b7b8r", "h1a8"] {
        let m = move_from_uci(text);
        assert_eq!(m.to_uci(), text);
    }
    let m = UciMove {
        source: Square { file: 6, rank: 6 },
        dest: Square { file: 7, rank: 7 },
        promotion: Some(Promotion::Bishop),
    };
    assert_eq!(move_from_uci(&m.to_uci()), m);
}

#[test]
fn reads_best_move_replies() {
    let e2e4 = move_from_uci("e2e4");
    assert_eq!(scan_reply("bestmove e2e4"), Reply::BestMove(e2e4));
    assert_eq!(scan_reply("  bestmove   e2e4  ponder e7e5"), Reply::BestMove(e2e4));
    assert_eq!(scan_reply("bestmove"), Reply::Malformed);
    assert_eq!(scan_reply("bestmove (none)"), Reply::Malformed);
    assert_eq!(scan_reply("info depth 12 score cp 30"), Reply::Unrelated);
    assert_eq!(scan_reply(""), Reply::Unrelated);
    assert_eq!(scan_reply("bestmoves e2e4"), Reply::Unrelated);
    assert_eq!(scan_reply("bestmove\u{a0}e2e4"), Reply::BestMove(e2e4));
    assert_eq!(scan_reply("bestmove\u{b}e2e4"), Reply::BestMove(e2e4));
}

#[test]
fn reads_handshake_lines() {
    assert_eq!(scan_name("id name Stockfish 16"), Some("Stockfish 16".to_string()));
    assert_eq!(scan_name("id  name   Toy Engine"), Some("Toy Engine".to_string()));
    assert_eq!(scan_name("id author Someone"), None);
    assert_eq!(scan_name("uciok"), None);
    assert!(protocol_ack("uciok"));
    assert!(!protocol_ack("uciokay"));
    assert!(ready_ack("readyok"));
    assert!(ready_ack("readyok now"));
    assert!(!ready_ack("ready"));
}

#[test]
fn name_comes_before_acknowledgment() {
    let lines = |ls: &[&str]| ls.iter().map(|l| l.to_string()).collect::<Vec<String>>();
    assert_eq!(
        Engine::get_name(&lines(&["Toy 1.0 by someone", "id name Toy", "id author X", "uciok"])),
        Some("Toy".to_string())
    );
    assert_eq!(Engine::get_name(&lines(&["option name Hash", "uciok", "id name Late"])), None);
    assert_eq!(Engine::get_name(&lines(&[])), None);
}

#[test]
fn player_falls_back_to_path() {
    let p = Player::new("./engines/toy", None);
    assert_eq!(p.name, "./engines/toy");
    let q = Player::new("./engines/toy", Some("Toy".to_string()));
    assert_eq!(q.name, "Toy");
    assert_eq!(q.path, "./engines/toy");
}

#[test]
fn handshake_and_parameters() {
    let mut e = Engine::new("./toy", START);
    e.send_features(&FeatureVector { features: vec![1, -2, 30] });
    e.begin_game();
    assert_eq!(
        e.take_pending(),
        vec![
            "uci".to_string(),
            "isready".to_string(),
            "setoption name FeatureVector 1 -2 30".to_string(),
            "ucinewgame".to_string(),
        ]
    );
    assert!(e.take_pending().is_empty());
    assert_eq!(e.path(), "./toy");
}

#[test]
fn position_and_search_lines() {
    let mut e = Engine::new("./toy", START);
    e.take_pending();
    let mut c = Contest::new(START, 6000, 100, true, lenient()).unwrap();
    e.get_move(&c);
    assert_eq!(
        e.take_pending(),
        vec![
            format!("position fen {START} moves "),
            "go wtime 6000 winc 100 btime 6000 binc 100".to_string(),
        ]
    );
    c.apply_reply(Some(move_from_uci("e2e4")), 250).unwrap();
    c.apply_reply(Some(move_from_uci("e7e5")), 1000).unwrap();
    e.get_move(&c);
    assert_eq!(
        e.take_pending(),
        vec![
            format!("position fen {START} moves e2e4 e7e5"),
            "go wtime 5850 winc 100 btime 5100 binc 100".to_string(),
        ]
    );
    assert_eq!(c.clock(), Clock { white: 5850, black: 5100 });
}

#[test]
fn negative_parameters_render_in_decimal() {
    let mut e = Engine::new("./toy", START);
    e.take_pending();
    e.send_features(&FeatureVector { features: vec![i32::MIN, 0, i32::MAX] });
    assert_eq!(
        e.take_pending(),
        vec!["setoption name FeatureVector -2147483648 0 2147483647".to_string()]
    );
    e.send_features(&FeatureVector { features: vec![] });
    assert_eq!(e.take_pending(), vec!["setoption name FeatureVector ".to_string()]);
}
