//! The boundary to the rules engine (the `chess` crate). The position is an
//! opaque `chess::Game` value; what the coordination logic reads of it --
//! the legal moves, the side to move, the occupancy of a square, the game
//! outcome and the position's text form -- is named by uninterpreted spec
//! functions, and each call into the rules engine is a small trusted
//! wrapper whose contract speaks over those names.

use vstd::prelude::*;

use crate::board::Color;
use crate::board::GameOutcome;
use crate::board::Move;
use crate::board::Piece;
use crate::board::Square;

verus! {

/// Declares `chess::Game`, the rules engine's opaque position-with-history.
#[verifier::external_type_specification]
#[verifier::external_body]
pub struct ExGame(chess::Game);

/// Declares `chess::ChessMove`, the rules engine's move value, carried
/// only through the conversion below.
#[verifier::external_type_specification]
#[verifier::external_body]
pub struct ExChessMove(chess::ChessMove);

/// The legal moves of the position, in the order the rules engine's move
/// generator yields them.
pub uninterp spec fn legal_moves_of(g: chess::Game) -> Seq<Move>;

/// The side to move in the position.
pub uninterp spec fn side_to_move_of(g: chess::Game) -> Color;

/// The kind of piece standing on a square of the position, if any.
pub uninterp spec fn piece_on_of(g: chess::Game, sq: Square) -> Option<Piece>;

/// The color of the piece standing on a square of the position, if any.
pub uninterp spec fn color_on_of(g: chess::Game, sq: Square) -> Option<Color>;

/// The finished game's outcome, or `None` while the game goes on.
pub uninterp spec fn outcome_of(g: chess::Game) -> Option<GameOutcome>;

/// The position in its standard single-line text notation (FEN).
pub uninterp spec fn fen_of(g: chess::Game) -> Seq<char>;

/// The game after a legal move is played: what `Game::make_move` leaves
/// behind on success.
pub uninterp spec fn game_after(g: chess::Game, m: Move) -> chess::Game;

/// Relies on `chess::Game::new`: a fresh game holds the standard starting
/// position — White to move, no moves played, no result yet, and the
/// standard initial FEN line.
#[verifier::external_body]
pub fn new_game() -> (g: chess::Game)
    ensures
        side_to_move_of(g) == Color::White,
        outcome_of(g) is None,
        fen_of(g) == "rnbqkbnr/pppppppp/8/8/8/8/PPPPPPPP/RNBQKBNR w KQkq - 0 1"@,
{
    chess::Game::new()
}

/// Relies on `chess::MoveGen::new_legal` over `chess::Game::current_position`:
/// the generator yields exactly the legal moves of the position, each with
/// on-board source and destination squares and a promotion drawn from
/// queen, rook, bishop or knight. Whether a yielded move promotes depends
/// on its source square alone — a pawn on the mover's seventh rank, which
/// makes no en-passant capture — so moves sharing a source agree on
/// promoting.
#[verifier::external_body]
pub fn legal_moves(g: &chess::Game) -> (r: Vec<Move>)
    ensures
        r@ == legal_moves_of(*g),
        forall|i: int| 0 <= i < r@.len() ==> (#[trigger] r@[i]).wf() && r@[i].promo_ok(),
        forall|i: int, j: int|
            0 <= i < r@.len() && 0 <= j < r@.len() && #[trigger] r@[i].from == #[trigger] r@[j].from
                ==> (r@[i].promotion is Some <==> r@[j].promotion is Some),
{
    let board = g.current_position();
    let mut r: Vec<Move> = Vec::new();
    for m in chess::MoveGen::new_legal(&board) {
        r.push(move_in(m));
    }
    r
}

/// Relies on `chess::ChessMove::get_source` / `get_dest` / `get_promotion`
/// and on `File::to_index` / `Rank::to_index` giving indices in 0..8; the
/// promotion variants are carried over one for one, and legal moves only
/// ever promote to queen, rook, bishop or knight.
#[verifier::external_body]
fn move_in(m: chess::ChessMove) -> (r: Move)
    ensures
        r.wf(),
{
    let (s, d) = (m.get_source(), m.get_dest());
    let promotion = match m.get_promotion() {
        Some(chess::Piece::Queen) => Some(Piece::Queen),
        Some(chess::Piece::Rook) => Some(Piece::Rook),
        Some(chess::Piece::Bishop) => Some(Piece::Bishop),
        Some(chess::Piece::Knight) => Some(Piece::Knight),
        _ => None,
    };
    Move {
        from: Square { file: s.get_file().to_index() as u8, rank: s.get_rank().to_index() as u8 },
        to: Square { file: d.get_file().to_index() as u8, rank: d.get_rank().to_index() as u8 },
        promotion,
    }
}

/// Relies on `chess::Game::side_to_move`: White or Black, as the position
/// says.
#[verifier::external_body]
pub fn side_to_move(g: &chess::Game) -> (c: Color)
    ensures
        c == side_to_move_of(*g),
{
    match g.side_to_move() {
        chess::Color::White => Color::White,
        chess::Color::Black => Color::Black,
    }
}

/// Relies on `chess::Board::piece_on` over `chess::Game::current_position`:
/// the kind of piece on the square, or `None` when it is empty.
#[verifier::external_body]
pub fn piece_on(g: &chess::Game, sq: Square) -> (r: Option<Piece>)
    requires
        sq.wf(),
    ensures
        r == piece_on_of(*g, sq),
{
    let csq = chess::Square::make_square(
        chess::Rank::from_index(sq.rank as usize),
        chess::File::from_index(sq.file as usize),
    );
    match g.current_position().piece_on(csq) {
        Some(chess::Piece::Pawn) => Some(Piece::Pawn),
        Some(chess::Piece::Knight) => Some(Piece::Knight),
        Some(chess::Piece::Bishop) => Some(Piece::Bishop),
        Some(chess::Piece::Rook) => Some(Piece::Rook),
        Some(chess::Piece::Queen) => Some(Piece::Queen),
        Some(chess::Piece::King) => Some(Piece::King),
        None => None,
    }
}

/// Relies on `chess::Board::color_on` over `chess::Game::current_position`:
/// the color of the piece on the square, or `None` when it is empty.
#[verifier::external_body]
pub fn color_on(g: &chess::Game, sq: Square) -> (r: Option<Color>)
    requires
        sq.wf(),
    ensures
        r == color_on_of(*g, sq),
{
    let csq = chess::Square::make_square(
        chess::Rank::from_index(sq.rank as usize),
        chess::File::from_index(sq.file as usize),
    );
    match g.current_position().color_on(csq) {
        Some(chess::Color::White) => Some(Color::White),
        Some(chess::Color::Black) => Some(Color::Black),
        None => None,
    }
}

/// Relies on `chess::Game::make_move`: the move is played exactly when the
/// game has no result yet and the move is legal in the current position
/// (`Board::legal` is membership in what `MoveGen::new_legal` yields);
/// otherwise the game is left untouched. Success records exactly that one
/// move, which passes the turn to the other side. The argument is rebuilt
/// with `ChessMove::new`, `Square::make_square` and `File::from_index` /
/// `Rank::from_index`, which invert `to_index` on indices below 8.
#[verifier::external_body]
pub fn make_move(g: &mut chess::Game, m: Move) -> (ok: bool)
    requires
        m.wf(),
        m.promo_ok(),
    ensures
        ok == (outcome_of(*old(g)) is None && legal_moves_of(*old(g)).contains(m)),
        ok ==> *final(g) == game_after(*old(g), m),
        ok ==> side_to_move_of(*final(g)) == side_to_move_of(*old(g)).spec_other(),
        !ok ==> *final(g) == *old(g),
{
    let promotion = match m.promotion {
        Some(Piece::Queen) => Some(chess::Piece::Queen),
        Some(Piece::Rook) => Some(chess::Piece::Rook),
        Some(Piece::Bishop) => Some(chess::Piece::Bishop),
        Some(Piece::Knight) => Some(chess::Piece::Knight),
        _ => None,
    };
    let f = chess::Square::make_square(chess::Rank::from_index(m.from.rank as usize), chess::File::from_index(m.from.file as usize));
    let t = chess::Square::make_square(chess::Rank::from_index(m.to.rank as usize), chess::File::from_index(m.to.file as usize));
    g.make_move(chess::ChessMove::new(f, t, promotion))
}

/// Relies on `chess::Game::result`: the outcome of a finished game, `None`
/// while it goes on; the variants are carried over one for one.
#[verifier::external_body]
pub fn game_result(g: &chess::Game) -> (r: Option<GameOutcome>)
    ensures
        r == outcome_of(*g),
{
    match g.result() {
        Some(chess::GameResult::WhiteCheckmates) => Some(GameOutcome::WhiteCheckmates),
        Some(chess::GameResult::WhiteResigns) => Some(GameOutcome::WhiteResigns),
        Some(chess::GameResult::BlackCheckmates) => Some(GameOutcome::BlackCheckmates),
        Some(chess::GameResult::BlackResigns) => Some(GameOutcome::BlackResigns),
        Some(chess::GameResult::Stalemate) => Some(GameOutcome::Stalemate),
        Some(chess::GameResult::DrawAccepted) => Some(GameOutcome::DrawAccepted),
        Some(chess::GameResult::DrawDeclared) => Some(GameOutcome::DrawDeclared),
        None => None,
    }
}

/// Relies on the `Display` of `chess::Board`, reached through
/// `chess::Game::current_position`: it prints the position's FEN line.
#[verifier::external_body]
pub fn current_fen(g: &chess::Game) -> (r: String)
    ensures
        r@ == fen_of(*g),
{
    format!("{}", g.current_position())
}

} // verus!
