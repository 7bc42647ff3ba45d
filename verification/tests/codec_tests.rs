use chess_term::board::Move;
use chess_term::board::Piece;
use chess_term::board::Square;
use chess_term::codec::decode;
use chess_term::codec::encode;

fn sq(file: u8, rank: u8) -> Square {
    Square { file, rank }
}

fn mv(from: Square, to: Square) -> Move {
    Move { from, to, promotion: None }
}

#[test]
fn encode_plain_move() {
    let m = mv(sq(4, 1), sq(4, 3));
    assert_eq!(encode(&m), "e2e4");
}

#[test]
fn encode_promotion_move() {
    let m = Move { from: sq(0, 6), to: sq(0, 7), promotion: Some(Piece::Queen) };
    assert_eq!(encode(&m), "a7a8q");
    let n = Move { from: sq(7, 6), to: sq(7, 7), promotion: Some(Piece::Knight) };
    assert_eq!(encode(&n), "h7h8n");
}

#[test]
fn encode_corner_squares() {
    assert_eq!(encode(&mv(sq(0, 0), sq(7, 7))), "a1h8");
    assert_eq!(encode(&mv(sq(7, 0), sq(0, 7))), "h1a8");
}

#[test]
fn decode_finds_listed_move() {
    let legal = vec![mv(sq(4, 1), sq(4, 2)), mv(sq(4, 1), sq(4, 3))];
    let got = decode("e2e4", &legal);
    assert_eq!(got, Some(mv(sq(4, 1), sq(4, 3))));
}

#[test]
fn decode_rejects_short_text() {
    let legal = vec![mv(sq(4, 1), sq(4, 3))];
    assert_eq!(decode("e2e", &legal), None);
    assert_eq!(decode("", &legal), None);
}

#[test]
fn decode_rejects_out_of_range_characters() {
    let legal = vec![mv(sq(4, 1), sq(4, 3))];
    assert_eq!(decode("i2e4", &legal), None);
    assert_eq!(decode("e9e4", &legal), None);
    assert_eq!(decode("e2x4", &legal), None);
    assert_eq!(decode("e2e0", &legal), None);
}

#[test]
fn decode_never_invents_a_move() {
    let legal = vec![mv(sq(4, 1), sq(4, 3))];
    assert_eq!(decode("a1h8", &legal), None);
    let empty: Vec<Move> = Vec::new();
    assert_eq!(decode("e2e4", &empty), None);
}

#[test]
fn decode_picks_matching_promotion() {
    let legal = vec![
        Move { from: sq(0, 6), to: sq(0, 7), promotion: Some(Piece::Queen) },
        Move { from: sq(0, 6), to: sq(0, 7), promotion: Some(Piece::Rook) },
        Move { from: sq(0, 6), to: sq(0, 7), promotion: Some(Piece::Bishop) },
        Move { from: sq(0, 6), to: sq(0, 7), promotion: Some(Piece::Knight) },
    ];
    let got = decode("a7a8r", &legal);
    assert_eq!(got, Some(legal[1]));
}

#[test]
fn decode_without_suffix_takes_first_listed_promotion() {
    let legal = vec![
        Move { from: sq(0, 6), to: sq(0, 7), promotion: Some(Piece::Queen) },
        Move { from: sq(0, 6), to: sq(0, 7), promotion: Some(Piece::Rook) },
    ];
    let got = decode("a7a8", &legal);
    assert_eq!(got, Some(legal[0]));
}

#[test]
fn decode_with_unrecognized_suffix_ignores_it() {
    let legal = vec![mv(sq(4, 1), sq(4, 3))];
    let got = decode("e2e4x", &legal);
    assert_eq!(got, Some(legal[0]));
}

#[test]
fn round_trip_over_a_move_list() {
    let legal = vec![
        mv(sq(4, 1), sq(4, 2)),
        mv(sq(4, 1), sq(4, 3)),
        mv(sq(6, 0), sq(5, 2)),
        Move { from: sq(0, 6), to: sq(0, 7), promotion: Some(Piece::Queen) },
        Move { from: sq(0, 6), to: sq(0, 7), promotion: Some(Piece::Knight) },
    ];
    for m in &legal {
        assert_eq!(decode(&encode(m), &legal), Some(*m));
    }
}
