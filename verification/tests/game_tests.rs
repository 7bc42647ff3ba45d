use chess_term::board::Color;
use chess_term::codec::decode;
use chess_term::codec::encode;
use chess_term::board::GameOutcome;
use chess_term::board::Piece;
use chess_term::board::Square;
use chess_term::game::ChessGame;

fn sq(file: u8, rank: u8) -> Square {
    Square { file, rank }
}

/// Plays one move through the selection logic and insists it lands.
fn play(game: &mut ChessGame, from: Square, to: Square) {
    assert!(!game.select_square(from), "selecting a source played a move");
    assert!(game.select_square(to), "move was not played");
}

#[test]
fn new_game_state() {
    let game = ChessGame::new();
    assert_eq!(game.side_to_move(), Color::White);
    assert_eq!(game.selected_square(), None);
    assert!(game.possible_moves().is_empty());
    assert!(!game.is_thinking());
    assert_eq!(game.message(), "Welcome to Chess Terminal! You play as White.");
    assert_eq!(game.game_result(), None);
}

#[test]
fn starting_position_text() {
    let game = ChessGame::new();
    assert_eq!(
        game.current_position(),
        "rnbqkbnr/pppppppp/8/8/8/8/PPPPPPPP/RNBQKBNR w KQkq - 0 1"
    );
}

#[test]
fn board_introspection_at_start() {
    let game = ChessGame::new();
    assert_eq!(game.piece_at(sq(4, 1)), Some(Piece::Pawn));
    assert_eq!(game.color_at(sq(4, 1)), Some(Color::White));
    assert_eq!(game.piece_at(sq(4, 0)), Some(Piece::King));
    assert_eq!(game.piece_at(sq(3, 7)), Some(Piece::Queen));
    assert_eq!(game.color_at(sq(3, 7)), Some(Color::Black));
    assert_eq!(game.piece_at(sq(4, 3)), None);
    assert_eq!(game.color_at(sq(4, 3)), None);
}

#[test]
fn selecting_own_pawn_fills_cache() {
    let mut game = ChessGame::new();
    let moved = game.select_square(sq(4, 1));
    assert!(!moved);
    assert_eq!(game.selected_square(), Some(sq(4, 1)));
    let cache = game.possible_moves();
    assert_eq!(cache.len(), 2);
    assert!(cache.iter().all(|m| m.from == sq(4, 1)));
    assert!(cache.iter().any(|m| m.to == sq(4, 2)));
    assert!(cache.iter().any(|m| m.to == sq(4, 3)));
}

#[test]
fn selecting_destination_plays_and_clears() {
    let mut game = ChessGame::new();
    game.select_square(sq(4, 1));
    let moved = game.select_square(sq(4, 3));
    assert!(moved);
    assert_eq!(game.selected_square(), None);
    assert!(game.possible_moves().is_empty());
    assert_eq!(game.message(), "Move: e2e4");
    assert_eq!(game.side_to_move(), Color::Black);
    assert_eq!(game.piece_at(sq(4, 3)), Some(Piece::Pawn));
    assert_eq!(game.piece_at(sq(4, 1)), None);
}

#[test]
fn selecting_enemy_piece_does_nothing() {
    let mut game = ChessGame::new();
    let moved = game.select_square(sq(4, 6));
    assert!(!moved);
    assert_eq!(game.selected_square(), None);
    assert!(game.possible_moves().is_empty());
}

#[test]
fn selecting_empty_square_does_nothing() {
    let mut game = ChessGame::new();
    assert!(!game.select_square(sq(4, 3)));
    assert_eq!(game.selected_square(), None);
}

#[test]
fn reselecting_another_own_piece() {
    let mut game = ChessGame::new();
    game.select_square(sq(4, 1));
    let moved = game.select_square(sq(3, 1));
    assert!(!moved);
    assert_eq!(game.selected_square(), Some(sq(3, 1)));
    assert!(game.possible_moves().iter().all(|m| m.from == sq(3, 1)));
}

#[test]
fn selecting_unreachable_enemy_square_deselects() {
    let mut game = ChessGame::new();
    game.select_square(sq(4, 1));
    let moved = game.select_square(sq(4, 6));
    assert!(!moved);
    assert_eq!(game.selected_square(), None);
    assert!(game.possible_moves().is_empty());
}

#[test]
fn square_construction_rejects_off_board() {
    assert_eq!(Square::new(8, 0), None);
    assert_eq!(Square::new(0, 8), None);
    assert_eq!(Square::new(255, 255), None);
    assert_eq!(Square::new(7, 7), Some(sq(7, 7)));
}

#[test]
fn engine_reply_applies_and_clears_thinking() {
    let mut game = ChessGame::new();
    play(&mut game, sq(4, 1), sq(4, 3));
    game.set_thinking(true);
    assert!(game.is_thinking());
    assert_eq!(game.message(), "Engine is thinking...");
    let applied = game.make_engine_move("e7e5");
    assert!(applied);
    assert!(!game.is_thinking());
    assert_eq!(game.message(), "Engine moved: e7e5");
    assert_eq!(game.piece_at(sq(4, 4)), Some(Piece::Pawn));
    assert_eq!(game.color_at(sq(4, 4)), Some(Color::Black));
    assert_eq!(game.piece_at(sq(4, 6)), None);
    assert_eq!(game.side_to_move(), Color::White);
}

#[test]
fn illegal_engine_reply_is_discarded() {
    let mut game = ChessGame::new();
    let fen_before = game.current_position();
    let msg_before = game.message().to_owned();
    let applied = game.make_engine_move("a1h8");
    assert!(!applied);
    assert_eq!(game.current_position(), fen_before);
    assert_eq!(game.message(), msg_before);
    assert_eq!(game.side_to_move(), Color::White);
    assert_eq!(game.selected_square(), None);
}

#[test]
fn malformed_engine_reply_is_discarded() {
    let mut game = ChessGame::new();
    let fen_before = game.current_position();
    assert!(!game.make_engine_move("e2"));
    assert!(!game.make_engine_move("zzzz"));
    assert!(!game.make_engine_move(""));
    assert_eq!(game.current_position(), fen_before);
}

#[test]
fn clearing_thinking_keeps_message() {
    let mut game = ChessGame::new();
    game.set_thinking(true);
    game.set_thinking(false);
    assert!(!game.is_thinking());
    assert_eq!(game.message(), "Engine is thinking...");
    game.set_message(String::from("ready"));
    assert_eq!(game.message(), "ready");
}

#[test]
fn promotion_reply_resolves_to_queen() {
    let mut game = ChessGame::new();
    play(&mut game, sq(0, 1), sq(0, 3)); // a4
    play(&mut game, sq(1, 6), sq(1, 4)); // b5
    play(&mut game, sq(0, 3), sq(1, 4)); // axb5
    play(&mut game, sq(0, 6), sq(0, 5)); // a6
    play(&mut game, sq(1, 4), sq(0, 5)); // bxa6
    play(&mut game, sq(1, 7), sq(2, 5)); // Nc6
    play(&mut game, sq(0, 5), sq(0, 6)); // a7
    play(&mut game, sq(0, 7), sq(1, 7)); // Rb8
    assert_eq!(game.side_to_move(), Color::White);
    let applied = game.make_engine_move("a7a8q");
    assert!(applied);
    assert_eq!(game.piece_at(sq(0, 7)), Some(Piece::Queen));
    assert_eq!(game.color_at(sq(0, 7)), Some(Color::White));
    assert_eq!(game.message(), "Engine moved: a7a8q");
}

#[test]
fn promotion_reply_respects_chosen_piece() {
    let mut game = ChessGame::new();
    play(&mut game, sq(0, 1), sq(0, 3));
    play(&mut game, sq(1, 6), sq(1, 4));
    play(&mut game, sq(0, 3), sq(1, 4));
    play(&mut game, sq(0, 6), sq(0, 5));
    play(&mut game, sq(1, 4), sq(0, 5));
    play(&mut game, sq(1, 7), sq(2, 5));
    play(&mut game, sq(0, 5), sq(0, 6));
    play(&mut game, sq(0, 7), sq(1, 7));
    assert!(game.make_engine_move("a7a8n"));
    assert_eq!(game.piece_at(sq(0, 7)), Some(Piece::Knight));
}

#[test]
fn checkmate_is_reported() {
    let mut game = ChessGame::new();
    play(&mut game, sq(5, 1), sq(5, 2)); // f3
    play(&mut game, sq(4, 6), sq(4, 4)); // e5
    play(&mut game, sq(6, 1), sq(6, 3)); // g4
    play(&mut game, sq(3, 7), sq(7, 3)); // Qh4, mate
    assert_eq!(game.game_result(), Some(GameOutcome::BlackCheckmates));
}

#[test]
fn no_reply_applies_after_checkmate() {
    let mut game = ChessGame::new();
    play(&mut game, sq(5, 1), sq(5, 2));
    play(&mut game, sq(4, 6), sq(4, 4));
    play(&mut game, sq(6, 1), sq(6, 3));
    play(&mut game, sq(3, 7), sq(7, 3));
    assert!(!game.make_engine_move("e2e3"));
}

#[test]
fn round_trip_over_positions_legal_moves() {
    let mut game = ChessGame::new();
    game.select_square(sq(4, 1));
    let from_e2 = game.possible_moves().clone();
    assert!(!from_e2.is_empty());
    for m in &from_e2 {
        assert_eq!(decode(&encode(m), &from_e2), Some(*m));
    }
}

#[test]
fn round_trip_over_promotion_moves() {
    let mut game = ChessGame::new();
    play(&mut game, sq(0, 1), sq(0, 3));
    play(&mut game, sq(1, 6), sq(1, 4));
    play(&mut game, sq(0, 3), sq(1, 4));
    play(&mut game, sq(0, 6), sq(0, 5));
    play(&mut game, sq(1, 4), sq(0, 5));
    play(&mut game, sq(1, 7), sq(2, 5));
    play(&mut game, sq(0, 5), sq(0, 6));
    play(&mut game, sq(0, 7), sq(1, 7));
    game.select_square(sq(0, 6));
    let promotions = game.possible_moves().clone();
    // pushing to a8 and capturing on b8, four promotion pieces each
    assert_eq!(promotions.len(), 8);
    assert!(promotions.iter().all(|m| m.promotion.is_some()));
    for m in &promotions {
        assert_eq!(decode(&encode(m), &promotions), Some(*m));
    }
}
