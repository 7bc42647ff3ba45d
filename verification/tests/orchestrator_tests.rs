use chess_term::board::Square;
use chess_term::game::ChessGame;
use chess_term::orchestrator::InputCollector;
use chess_term::orchestrator::on_square_chosen;

fn sq(file: u8, rank: u8) -> Square {
    Square { file, rank }
}

#[test]
fn keys_build_a_square() {
    let mut keys = InputCollector::new();
    assert_eq!(keys.on_key('e'), None);
    assert_eq!(keys.on_key('2'), Some(sq(4, 1)));
    assert_eq!(keys.on_key('a'), None);
    assert_eq!(keys.on_key('8'), Some(sq(0, 7)));
}

#[test]
fn stray_second_key_resets_input() {
    let mut keys = InputCollector::new();
    assert_eq!(keys.on_key('e'), None);
    assert_eq!(keys.on_key('x'), None);
    // the file selection is gone: a rank digit alone completes nothing
    assert_eq!(keys.on_key('2'), None);
}

#[test]
fn rank_digit_without_file_completes_nothing() {
    let mut keys = InputCollector::new();
    assert_eq!(keys.on_key('5'), None);
    assert_eq!(keys.on_key('q'), None);
}

#[test]
fn later_file_key_wins() {
    let mut keys = InputCollector::new();
    assert_eq!(keys.on_key('a'), None);
    assert_eq!(keys.on_key('b'), None);
    assert_eq!(keys.on_key('3'), Some(sq(1, 2)));
}

#[test]
fn human_move_raises_one_think_request() {
    let mut game = ChessGame::new();
    let first = on_square_chosen(&mut game, sq(4, 1));
    assert_eq!(first, None);
    let request = on_square_chosen(&mut game, sq(4, 3));
    let fen = request.expect("a think request follows the human's move");
    assert!(fen.starts_with("rnbqkbnr/pppppppp/8/8/4P3/8/PPPP1PPP/RNBQKBNR b"));
    assert!(game.is_thinking());
    assert_eq!(game.message(), "Engine is thinking...");
}

#[test]
fn squares_are_ignored_while_thinking() {
    let mut game = ChessGame::new();
    on_square_chosen(&mut game, sq(4, 1));
    on_square_chosen(&mut game, sq(4, 3));
    assert!(game.is_thinking());
    // black pieces would be selectable now; the orchestrator must not act
    let fen_before = game.current_position();
    assert_eq!(on_square_chosen(&mut game, sq(4, 6)), None);
    assert_eq!(on_square_chosen(&mut game, sq(4, 4)), None);
    assert_eq!(game.current_position(), fen_before);
    assert_eq!(game.selected_square(), None);
    assert!(game.is_thinking());
}

#[test]
fn reply_then_next_move_requests_again() {
    let mut game = ChessGame::new();
    on_square_chosen(&mut game, sq(4, 1));
    let first = on_square_chosen(&mut game, sq(4, 3));
    assert!(first.is_some());
    // no second request can be issued before the reply lands
    assert_eq!(on_square_chosen(&mut game, sq(3, 1)), None);
    assert!(game.make_engine_move("e7e5"));
    assert!(!game.is_thinking());
    on_square_chosen(&mut game, sq(6, 0));
    let second = on_square_chosen(&mut game, sq(5, 2));
    assert!(second.is_some());
    assert!(game.is_thinking());
}

#[test]
fn mating_move_reports_game_over_and_no_request() {
    let mut game = ChessGame::new();
    // white walks into the fastest mate; every move through the orchestrator
    // would raise think requests, so play the first moves directly
    assert!(!game.select_square(sq(5, 1)));
    assert!(game.select_square(sq(5, 2))); // f3
    assert!(!game.select_square(sq(4, 6)));
    assert!(game.select_square(sq(4, 4))); // e5
    assert!(!game.select_square(sq(6, 1)));
    assert!(game.select_square(sq(6, 3))); // g4
    let pick = on_square_chosen(&mut game, sq(3, 7));
    assert_eq!(pick, None);
    let request = on_square_chosen(&mut game, sq(7, 3)); // Qh4, mate
    assert_eq!(request, None);
    assert!(!game.is_thinking());
    assert_eq!(game.message(), "Game over: BlackCheckmates");
}
