//! The game state machine: the current position (owned by the rules
//! engine), the selected square with its cached legal moves, the status
//! message and the thinking flag. Selection drives human moves; engine
//! replies arrive as notation text and are applied through the codec.

use vstd::prelude::*;

use crate::board::Color;
use crate::board::GameOutcome;
use crate::board::Move;
use crate::board::Piece;
use crate::board::Square;
use crate::codec;
use crate::codec::decode_spec;
use crate::codec::encode_spec;
use crate::rules;
use crate::rules::color_on_of;
use crate::rules::legal_moves_of;
use crate::rules::outcome_of;
use crate::rules::piece_on_of;
use crate::rules::side_to_move_of;
use vstd::string::StringExecFns;

verus! {

/// Keeps the moves leaving one square.
pub open spec fn from_pred(sq: Square) -> spec_fn(Move) -> bool {
    |m: Move| m.from == sq
}

/// Keeps the moves arriving at one square.
pub open spec fn dest_pred(sq: Square) -> spec_fn(Move) -> bool {
    |m: Move| m.to == sq
}

/// The first element at or after position `i` that satisfies `p`.
pub open spec fn first_where(s: Seq<Move>, p: spec_fn(Move) -> bool, i: int) -> Option<Move>
    decreases s.len() - i,
{
    if i < 0 || i >= s.len() {
        None
    } else if p(s[i]) {
        Some(s[i])
    } else {
        first_where(s, p, i + 1)
    }
}

/// A found element satisfies the predicate and stands in the list.
proof fn lemma_first_where_props(s: Seq<Move>, p: spec_fn(Move) -> bool, i: int)
    ensures
        first_where(s, p, i) matches Some(m) ==> s.contains(m) && p(m),
    decreases s.len() - i,
{
    if 0 <= i < s.len() {
        if p(s[i]) {
            assert(s.contains(s[i]));
        } else {
            lemma_first_where_props(s, p, i + 1);
        }
    }
}

/// An element of a filtered sequence stands in the original one.
proof fn lemma_filter_mem(s: Seq<Move>, p: spec_fn(Move) -> bool, m: Move)
    requires
        s.filter(p).contains(m),
    ensures
        s.contains(m),
    decreases s.len(),
{
    reveal(Seq::filter);
    broadcast use vstd::seq_lib::lemma_seq_contains_after_push;

    if s.len() > 0 {
        let sub = s.drop_last();
        if p(s.last()) && m == s.last() {
            assert(s[s.len() - 1] == m);
            assert(s.contains(m));
        } else {
            assert(sub.filter(p).contains(m));
            lemma_filter_mem(sub, p, m);
            let k = choose|k: int| 0 <= k < sub.len() && sub[k] == m;
            assert(s[k] == m);
            assert(s.contains(m));
        }
    }
}

/// Whether the square holds a piece of the side to move.
pub open spec fn own_piece_at(g: chess::Game, sq: Square) -> bool {
    piece_on_of(g, sq) is Some && color_on_of(g, sq) == Some(side_to_move_of(g))
}

pub struct ChessGame {
    /// The position, owned by the rules engine.
    pub game: chess::Game,
    /// The square the human has selected, if any.
    pub selected_square: Option<Square>,
    /// With a selection: the legal moves leaving it, in generation order.
    pub possible_moves: Vec<Move>,
    /// The status line shown to the player.
    pub message: String,
    /// Set from a think request until an engine move is applied.
    pub thinking: bool,
}

impl ChessGame {
    /// The legal moves of `g` that leave `sq`, in generation order.
    pub open spec fn moves_from(g: chess::Game, sq: Square) -> Seq<Move> {
        legal_moves_of(g).filter(from_pred(sq))
    }

    /// The selection cache is in sync with the position and the selection:
    /// with a selection it holds exactly the legal moves leaving it, with
    /// none it is empty; and every cached move is on the board with a
    /// proper promotion.
    pub open spec fn wf(self) -> bool {
        &&& match self.selected_square {
            Some(sq) => sq.wf() && self.possible_moves@ == Self::moves_from(self.game, sq),
            None => self.possible_moves@ == Seq::<Move>::empty(),
        }
        &&& forall|j: int|
            0 <= j < self.possible_moves@.len()
                ==> (#[trigger] self.possible_moves@[j]).wf() && self.possible_moves@[j].promo_ok()
    }

    /// The first cached move whose destination is `square`, if a square is
    /// selected.
    pub open spec fn selection_hit(self, square: Square) -> Option<Move> {
        if self.selected_square is Some {
            first_where(self.possible_moves@, dest_pred(square), 0)
        } else {
            None
        }
    }

    /// Whether choosing `square` plays a move: a cached move arrives there
    /// and the game still runs.
    pub open spec fn move_made(self, square: Square) -> bool {
        self.selection_hit(square) is Some && outcome_of(self.game) is None
    }

    /// Where the selection stands after choosing `square`, when no move
    /// was played: kept over a refused move, moved to `square` when it
    /// holds an own piece, cleared otherwise.
    pub open spec fn selection_after(self, square: Square) -> Option<Square> {
        if self.selected_square is Some && self.selection_hit(square) is Some {
            self.selected_square
        } else if own_piece_at(self.game, square) {
            Some(square)
        } else {
            None
        }
    }

    /// A fresh game: starting position, White to move, nothing selected,
    /// nobody thinking.
    pub fn new() -> (g: ChessGame)
        ensures
            g.wf(),
            side_to_move_of(g.game) == Color::White,
            outcome_of(g.game) is None,
            g.selected_square is None,
            g.possible_moves@ == Seq::<Move>::empty(),
            g.thinking == false,
            g.message@ == "Welcome to Chess Terminal! You play as White."@,
            rules::fen_of(g.game) == "rnbqkbnr/pppppppp/8/8/8/8/PPPPPPPP/RNBQKBNR w KQkq - 0 1"@,
    {
        let g = ChessGame {
            game: rules::new_game(),
            selected_square: None,
            possible_moves: Vec::new(),
            message: String::from_str("Welcome to Chess Terminal! You play as White."),
            thinking: false,
        };
        proof {
            assert(g.possible_moves@ =~= Seq::<Move>::empty());
        }
        g
    }

    /// The position in its standard single-line text notation.
    pub fn current_position(&self) -> (r: String)
        ensures
            r@ == rules::fen_of(self.game),
    {
        rules::current_fen(&self.game)
    }

    /// The side to move.
    pub fn side_to_move(&self) -> (c: Color)
        ensures
            c == side_to_move_of(self.game),
    {
        rules::side_to_move(&self.game)
    }

    /// The piece standing on a square, if any.
    pub fn piece_at(&self, sq: Square) -> (r: Option<Piece>)
        requires
            sq.wf(),
        ensures
            r == piece_on_of(self.game, sq),
    {
        rules::piece_on(&self.game, sq)
    }

    /// The color of the piece standing on a square, if any.
    pub fn color_at(&self, sq: Square) -> (r: Option<Color>)
        requires
            sq.wf(),
        ensures
            r == color_on_of(self.game, sq),
    {
        rules::color_on(&self.game, sq)
    }

    /// The selected square, if any.
    pub fn selected_square(&self) -> (r: Option<Square>)
        ensures
            r == self.selected_square,
    {
        self.selected_square
    }

    /// The cached legal moves leaving the selected square.
    pub fn possible_moves(&self) -> (r: &Vec<Move>)
        ensures
            r == &self.possible_moves,
    {
        &self.possible_moves
    }

    /// The status line.
    pub fn message(&self) -> (r: &str)
        ensures
            r@ == self.message@,
    {
        self.message.as_str()
    }

    /// Whether a think request is outstanding.
    pub fn is_thinking(&self) -> (r: bool)
        ensures
            r == self.thinking,
    {
        self.thinking
    }

    /// Sets or clears the thinking flag. Setting it overwrites the status
    /// line; clearing it leaves the line alone, so a move-applied message
    /// survives.
    pub fn set_thinking(&mut self, thinking: bool)
        ensures
            final(self).thinking == thinking,
            final(self).game == old(self).game,
            final(self).selected_square == old(self).selected_square,
            final(self).possible_moves == old(self).possible_moves,
            thinking ==> final(self).message@ == "Engine is thinking..."@,
            !thinking ==> final(self).message == old(self).message,
            old(self).wf() ==> final(self).wf(),
    {
        self.thinking = thinking;
        if thinking {
            self.message = String::from_str("Engine is thinking...");
        }
    }

    /// Replaces the status line.
    pub fn set_message(&mut self, message: String)
        ensures
            final(self).message == message,
            final(self).game == old(self).game,
            final(self).selected_square == old(self).selected_square,
            final(self).possible_moves == old(self).possible_moves,
            final(self).thinking == old(self).thinking,
            old(self).wf() ==> final(self).wf(),
    {
        self.message = message;
    }

    /// The finished game's outcome, or nothing while it goes on.
    pub fn game_result(&self) -> (r: Option<GameOutcome>)
        ensures
            r == outcome_of(self.game),
    {
        rules::game_result(&self.game)
    }

    /// Whether `square` holds a piece of the side to move.
    fn has_own_piece(&self, square: Square) -> (r: bool)
        requires
            square.wf(),
        ensures
            r == own_piece_at(self.game, square),
    {
        match rules::piece_on(&self.game, square) {
            Some(_) => match rules::color_on(&self.game, square) {
                Some(c) => c == rules::side_to_move(&self.game),
                None => false,
            },
            None => false,
        }
    }

    /// The first cached move arriving at `square`.
    fn find_dest(&self, square: Square) -> (r: Option<Move>)
        ensures
            r == first_where(self.possible_moves@, dest_pred(square), 0),
    {
        let mut i: usize = 0;
        while i < self.possible_moves.len()
            invariant
                0 <= i <= self.possible_moves.len(),
                first_where(self.possible_moves@, dest_pred(square), 0) == first_where(
                    self.possible_moves@,
                    dest_pred(square),
                    i as int,
                ),
            decreases self.possible_moves.len() - i,
        {
            if self.possible_moves[i].to == square {
                proof {
                    assert(dest_pred(square)(self.possible_moves@[i as int]));
                    assert(first_where(self.possible_moves@, dest_pred(square), i as int) == Some(
                        self.possible_moves@[i as int],
                    ));
                }
                return Some(self.possible_moves[i]);
            }
            proof {
                assert(!dest_pred(square)(self.possible_moves@[i as int]));
            }
            i = i + 1;
        }
        None
    }

    /// Recomputes the selection cache for the current position and
    /// selection; everything else stays as it was.
    pub fn update_possible_moves(&mut self)
        requires
            old(self).selected_square matches Some(sq) ==> sq.wf(),
        ensures
            final(self).game == old(self).game,
            final(self).selected_square == old(self).selected_square,
            final(self).message == old(self).message,
            final(self).thinking == old(self).thinking,
            final(self).wf(),
    {
        self.possible_moves = Vec::new();
        proof {
            assert(self.possible_moves@ =~= Seq::<Move>::empty());
        }
        if let Some(sq) = self.selected_square {
            let legal = rules::legal_moves(&self.game);
            let p = Ghost(from_pred(sq));
            proof {
                assert(legal@.take(0) =~= Seq::<Move>::empty());
                reveal(Seq::filter);
                assert(self.possible_moves@ == legal@.take(0).filter(p@));
            }
            let mut i: usize = 0;
            while i < legal.len()
                invariant
                    0 <= i <= legal.len(),
                    p@ == from_pred(sq),
                    self.game == old(self).game,
                    self.message == old(self).message,
                    self.thinking == old(self).thinking,
                    legal@ == legal_moves_of(self.game),
                    forall|j: int|
                        0 <= j < legal@.len()
                            ==> (#[trigger] legal@[j]).wf() && legal@[j].promo_ok(),
                    self.possible_moves@ == legal@.take(i as int).filter(p@),
                    forall|j: int|
                        0 <= j < self.possible_moves@.len()
                            ==> (#[trigger] self.possible_moves@[j]).wf()
                            && self.possible_moves@[j].promo_ok(),
                    self.selected_square == Some(sq),
                decreases legal.len() - i,
            {
                let ghost prefix = legal@.take(i as int);
                if legal[i].from == sq {
                    proof {
                        assert(p@(legal@[i as int]));
                    }
                    self.possible_moves.push(legal[i]);
                } else {
                    proof {
                        assert(!p@(legal@[i as int]));
                    }
                }
                proof {
                    legal@.lemma_take_succ_push(i as int);
                    prefix.lemma_filter_push(legal@[i as int], p@);
                    assert(legal@.take(i as int + 1).filter(p@) == self.possible_moves@);
                }
                i = i + 1;
            }
            proof {
                assert(legal@.take(legal@.len() as int) =~= legal@);
            }
        }
    }

    /// Handles the human choosing a square. With nothing selected, selects
    /// it when it holds an own piece. With a selection, plays the first
    /// cached move arriving there if one exists — advancing the position
    /// by that move and passing the turn — else reselects or deselects.
    /// Reports whether a move was played; only then do the position and
    /// the status line change, and the selection is cleared.
    pub fn select_square(&mut self, square: Square) -> (moved: bool)
        requires
            old(self).wf(),
            square.wf(),
        ensures
            final(self).wf(),
            final(self).thinking == old(self).thinking,
            moved == old(self).move_made(square),
            moved ==> final(self).selected_square is None && final(self).possible_moves@
                == Seq::<Move>::empty() && final(self).message@ == "Move: "@ + encode_spec(
                old(self).selection_hit(square).unwrap(),
            ),
            moved ==> final(self).game == rules::game_after(
                old(self).game,
                old(self).selection_hit(square).unwrap(),
            ),
            moved ==> side_to_move_of(final(self).game) == side_to_move_of(
                old(self).game,
            ).spec_other(),
            !moved ==> final(self).game == old(self).game && final(self).message == old(
                self,
            ).message && final(self).selected_square == old(self).selection_after(square),
    {
        if self.selected_square.is_some() {
            let hit = self.find_dest(square);
            proof {
                lemma_first_where_props(self.possible_moves@, dest_pred(square), 0);
            }
            match hit {
                Some(m) => {
                    proof {
                        if let Some(sel) = self.selected_square {
                            lemma_filter_mem(legal_moves_of(self.game), from_pred(sel), m);
                        }
                        let k = choose|k: int|
                            0 <= k < self.possible_moves@.len() && self.possible_moves@[k] == m;
                        assert(m.wf() && m.promo_ok());
                    }
                    let ok = rules::make_move(&mut self.game, m);
                    if ok {
                        let mut msg = String::from_str("Move: ");
                        let note = codec::encode(&m);
                        msg.append(note.as_str());
                        self.message = msg;
                        self.selected_square = None;
                        self.possible_moves = Vec::new();
                        proof {
                            assert(self.possible_moves@ =~= Seq::<Move>::empty());
                        }
                        true
                    } else {
                        false
                    }
                },
                None => {
                    if self.has_own_piece(square) {
                        self.selected_square = Some(square);
                        self.update_possible_moves();
                    } else {
                        self.selected_square = None;
                        self.possible_moves = Vec::new();
                        proof {
                            assert(self.possible_moves@ =~= Seq::<Move>::empty());
                        }
                    }
                    false
                },
            }
        } else {
            if self.has_own_piece(square) {
                self.selected_square = Some(square);
                self.update_possible_moves();
            }
            false
        }
    }

    /// Applies an engine reply given as notation text: decodes it against
    /// the full legal-move list and plays the result, advancing the
    /// position by the decoded move and passing the turn. On success the
    /// thinking flag falls, the selection and its cache are cleared and
    /// the status line reports the move; any reply that decodes to no
    /// legal move, or arrives after the game ended, is discarded and
    /// leaves the whole state untouched.
    pub fn make_engine_move(&mut self, uci_move: &str) -> (applied: bool)
        requires
            old(self).wf(),
        ensures
            final(self).wf(),
            applied == (decode_spec(uci_move@, legal_moves_of(old(self).game)) is Some
                && outcome_of(old(self).game) is None),
            applied ==> final(self).thinking == false && final(self).selected_square is None
                && final(self).possible_moves@ == Seq::<Move>::empty() && final(self).message@
                == "Engine moved: "@ + uci_move@,
            applied ==> final(self).game == rules::game_after(
                old(self).game,
                decode_spec(uci_move@, legal_moves_of(old(self).game)).unwrap(),
            ),
            applied ==> side_to_move_of(final(self).game) == side_to_move_of(
                old(self).game,
            ).spec_other(),
            !applied ==> *final(self) == *old(self),
    {
        let legal = rules::legal_moves(&self.game);
        let decoded = codec::decode(uci_move, &legal);
        match decoded {
            Some(m) => {
                proof {
                    codec::lemma_match_from_props(legal@, uci_move@, 0);
                    let k = choose|k: int| 0 <= k < legal@.len() && legal@[k] == m;
                    assert(m.wf() && m.promo_ok());
                }
                let ok = rules::make_move(&mut self.game, m);
                if ok {
                    self.selected_square = None;
                    self.possible_moves = Vec::new();
                    let mut msg = String::from_str("Engine moved: ");
                    msg.append(uci_move);
                    self.message = msg;
                    self.thinking = false;
                    proof {
                        assert(self.possible_moves@ =~= Seq::<Move>::empty());
                    }
                    true
                } else {
                    false
                }
            },
            None => false,
        }
    }
}

/// Whether some move of the list arrives at `d`.
pub open spec fn is_dest_in(moves: Seq<Move>, d: Square) -> bool {
    exists|m: Move| #[trigger] moves.contains(m) && m.to == d
}

/// Whether some legal move of the position leads from `sel` to `d`.
pub open spec fn is_legal_dest_from(g: chess::Game, sel: Square, d: Square) -> bool {
    exists|m: Move| #[trigger] legal_moves_of(g).contains(m) && m.from == sel && m.to == d
}

/// Selection invariant: in a well-formed state a square is a cached
/// destination exactly when some legal move leads from the selected square
/// to it; with nothing selected the cache is empty.
pub proof fn lemma_selection_invariant(s: ChessGame)
    requires
        s.wf(),
    ensures
        s.selected_square matches Some(sel) ==> forall|d: Square|
            #[trigger] is_dest_in(s.possible_moves@, d) <==> is_legal_dest_from(s.game, sel, d),
        s.selected_square is None ==> s.possible_moves@ == Seq::<Move>::empty(),
{
    if let Some(sel) = s.selected_square {
        let legal = legal_moves_of(s.game);
        let p = from_pred(sel);
        assert forall|d: Square|
            #[trigger] is_dest_in(s.possible_moves@, d) <==> is_legal_dest_from(
                s.game,
                sel,
                d,
            ) by {
            if is_dest_in(s.possible_moves@, d) {
                let m = choose|m: Move| #[trigger] s.possible_moves@.contains(m) && m.to == d;
                lemma_filter_mem(legal, p, m);
                let j = choose|j: int|
                    0 <= j < legal.filter(p).len() && legal.filter(p)[j] == m;
                legal.lemma_filter_pred(p, j);
                assert(legal.contains(m) && m.from == sel && m.to == d);
            }
            if is_legal_dest_from(s.game, sel, d) {
                let m = choose|m: Move| #[trigger] legal.contains(m) && m.from == sel && m.to == d;
                let k = choose|k: int| 0 <= k < legal.len() && legal[k] == m;
                legal.lemma_filter_contains(p, k);
                assert(s.possible_moves@.contains(m) && m.to == d);
            }
        }
    }
}

} // verus!
