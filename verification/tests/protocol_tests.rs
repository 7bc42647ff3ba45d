use chess_term::protocol::BridgePhase;
use chess_term::protocol::EngineProtocol;
use chess_term::protocol::parse_engine_line;

#[test]
fn listener_extracts_bestmove_token() {
    assert_eq!(parse_engine_line("bestmove e2e4"), Some(String::from("e2e4")));
    assert_eq!(parse_engine_line("bestmove e7e5"), Some(String::from("e7e5")));
    assert_eq!(parse_engine_line("bestmove a7a8q"), Some(String::from("a7a8q")));
}

#[test]
fn listener_takes_second_token_only() {
    assert_eq!(
        parse_engine_line("bestmove d2d4 ponder g8f6"),
        Some(String::from("d2d4"))
    );
    assert_eq!(parse_engine_line("bestmove   e7e5   "), Some(String::from("e7e5")));
}

#[test]
fn listener_discards_other_lines() {
    assert_eq!(parse_engine_line("info depth 20 score cp 31"), None);
    assert_eq!(parse_engine_line("readyok"), None);
    assert_eq!(parse_engine_line("uciok"), None);
    assert_eq!(parse_engine_line(""), None);
    assert_eq!(parse_engine_line("best"), None);
}

#[test]
fn listener_needs_a_second_token() {
    assert_eq!(parse_engine_line("bestmove"), None);
    assert_eq!(parse_engine_line("bestmove   "), None);
}

#[test]
fn handshake_lines() {
    let mut bridge = EngineProtocol::new();
    assert_eq!(bridge.phase, BridgePhase::NotStarted);
    let cmds = bridge.startup_commands();
    assert_eq!(bridge.phase, BridgePhase::Running);
    assert_eq!(
        cmds,
        vec![
            "uci\n",
            "isready\n",
            "setoption name Skill Level value 10\n",
            "setoption name Threads value 4\n",
            "setoption name Hash value 128\n",
            "setoption name UCI_AnalyseMode value false\n",
            "setoption name UCI_LimitStrength value false\n",
        ]
    );
}

#[test]
fn think_request_lines() {
    let mut bridge = EngineProtocol::new();
    bridge.startup_commands();
    let cmds = bridge.think_commands("rnbqkbnr/pppppppp/8/8/8/8/PPPPPPPP/RNBQKBNR w KQkq - 0 1");
    assert_eq!(cmds.len(), 2);
    assert_eq!(
        cmds[0],
        "position fen rnbqkbnr/pppppppp/8/8/8/8/PPPPPPPP/RNBQKBNR w KQkq - 0 1\n"
    );
    assert_eq!(cmds[1], "go movetime 2000\n");
    assert_eq!(bridge.phase, BridgePhase::Running);
}

#[test]
fn shutdown_stops_for_good() {
    let mut bridge = EngineProtocol::new();
    bridge.startup_commands();
    let cmd = bridge.quit_command();
    assert_eq!(cmd, "quit\n");
    assert_eq!(bridge.phase, BridgePhase::Stopped);
}
