//! The move codec: translation between the rules engine's move values and
//! the engine protocol's four/five-character text notation
//! `<source-file><source-rank><dest-file><dest-rank>[promotion]`, with
//! files `a`-`h`, ranks `1`-`8` and promotion letters `q`, `r`, `b`, `n`.
//!
//! Decoding is a lookup in a supplied legal-move list, never free
//! construction: whatever the text says, only a move already in the list
//! can come back.

use vstd::prelude::*;

use crate::board::Move;
use crate::board::Piece;
use crate::board::Square;

verus! {

/// Relies on `String::push`: appends the character to the end of the string.
pub assume_specification[ String::push ](s: &mut String, c: char)
    ensures
        final(s)@ == old(s)@.push(c),
;

/// The letter of a file index: `a` for 0 up to `h` for 7.
pub open spec fn file_char(f: u8) -> char {
    ((f + 97) as u8) as char
}

/// The digit of a rank index: `1` for 0 up to `8` for 7.
pub open spec fn rank_char(r: u8) -> char {
    ((r + 49) as u8) as char
}

/// The notation letter of a promotion piece. Only queen, rook, bishop and
/// knight occur in promotions; the remaining kinds are mapped to letters
/// the decoder ignores.
pub open spec fn promo_char(p: Piece) -> char {
    match p {
        Piece::Queen => 'q',
        Piece::Rook => 'r',
        Piece::Bishop => 'b',
        Piece::Knight => 'n',
        Piece::Pawn => 'p',
        Piece::King => 'k',
    }
}

/// The text of a move: four squares' worth of characters, and the
/// promotion letter when the move promotes.
pub open spec fn encode_spec(m: Move) -> Seq<char> {
    let base = seq![
        file_char(m.from.file),
        rank_char(m.from.rank),
        file_char(m.to.file),
        rank_char(m.to.rank),
    ];
    match m.promotion {
        Some(p) => base.push(promo_char(p)),
        None => base,
    }
}

/// Whether the character is a file letter `a`-`h`.
pub open spec fn is_file_char(c: char) -> bool {
    97 <= c as int && c as int <= 104
}

/// Whether the character is a rank digit `1`-`8`.
pub open spec fn is_rank_char(c: char) -> bool {
    49 <= c as int && c as int <= 56
}

/// The file index of a file letter.
pub open spec fn file_index(c: char) -> u8 {
    (c as int - 97) as u8
}

/// The rank index of a rank digit.
pub open spec fn rank_index(c: char) -> u8 {
    (c as int - 49) as u8
}

/// The promotion piece a notation letter stands for, if any.
pub open spec fn char_promo(c: char) -> Option<Piece> {
    if c == 'q' {
        Some(Piece::Queen)
    } else if c == 'r' {
        Some(Piece::Rook)
    } else if c == 'b' {
        Some(Piece::Bishop)
    } else if c == 'n' {
        Some(Piece::Knight)
    } else {
        None
    }
}

/// Whether the text opens with four square characters in range.
pub open spec fn notation_ok(s: Seq<char>) -> bool {
    &&& s.len() >= 4
    &&& is_file_char(s[0])
    &&& is_rank_char(s[1])
    &&& is_file_char(s[2])
    &&& is_rank_char(s[3])
}

/// The source square the text names.
pub open spec fn notation_from(s: Seq<char>) -> Square {
    Square { file: file_index(s[0]), rank: rank_index(s[1]) }
}

/// The destination square the text names.
pub open spec fn notation_to(s: Seq<char>) -> Square {
    Square { file: file_index(s[2]), rank: rank_index(s[3]) }
}

/// The promotion the text asks for: the fifth character's piece when one
/// is present and recognized, `None` otherwise.
pub open spec fn notation_promo(s: Seq<char>) -> Option<Piece> {
    if s.len() >= 5 {
        char_promo(s[4])
    } else {
        None
    }
}

/// Whether a legal move answers the text: endpoints agree, and when the
/// text carries a recognized promotion letter the promotions agree too. A
/// missing or unrecognized letter accepts any promotion the list holds for
/// those endpoints.
pub open spec fn move_matches(m: Move, s: Seq<char>) -> bool {
    &&& m.from == notation_from(s)
    &&& m.to == notation_to(s)
    &&& (notation_promo(s) is None || m.promotion == notation_promo(s))
}

/// The first move at or after position `i` of the list that answers the
/// text.
pub open spec fn match_from(legal: Seq<Move>, s: Seq<char>, i: int) -> Option<Move>
    decreases legal.len() - i,
{
    if i < 0 || i >= legal.len() {
        None
    } else if move_matches(legal[i], s) {
        Some(legal[i])
    } else {
        match_from(legal, s, i + 1)
    }
}

/// What decoding returns: nothing for malformed text, else the first move
/// of the list that answers it.
pub open spec fn decode_spec(s: Seq<char>, legal: Seq<Move>) -> Option<Move> {
    if notation_ok(s) {
        match_from(legal, s, 0)
    } else {
        None
    }
}

/// Writes a move in the engine's notation.
pub fn encode(m: &Move) -> (s: String)
    requires
        m.wf(),
    ensures
        s@ == encode_spec(*m),
{
    let mut s = String::new();
    s.push((m.from.file + 97) as char);
    s.push((m.from.rank + 49) as char);
    s.push((m.to.file + 97) as char);
    s.push((m.to.rank + 49) as char);
    match m.promotion {
        Some(p) => {
            let c = match p {
                Piece::Queen => 'q',
                Piece::Rook => 'r',
                Piece::Bishop => 'b',
                Piece::Knight => 'n',
                Piece::Pawn => 'p',
                Piece::King => 'k',
            };
            s.push(c);
        },
        None => {},
    }
    proof {
        assert(s@ =~= encode_spec(*m));
    }
    s
}

/// Reads a file letter, failing on anything outside `a`-`h`.
fn parse_file(c: char) -> (r: Option<u8>)
    ensures
        r matches Some(f) ==> is_file_char(c) && f == file_index(c) && f < 8,
        r is None <==> !is_file_char(c),
{
    let v = c as u32;
    if 97 <= v && v <= 104 {
        Some((v - 97) as u8)
    } else {
        None
    }
}

/// Reads a rank digit, failing on anything outside `1`-`8`.
fn parse_rank(c: char) -> (r: Option<u8>)
    ensures
        r matches Some(k) ==> is_rank_char(c) && k == rank_index(c) && k < 8,
        r is None <==> !is_rank_char(c),
{
    let v = c as u32;
    if 49 <= v && v <= 56 {
        Some((v - 49) as u8)
    } else {
        None
    }
}

/// Reads a promotion letter; anything but `q`, `r`, `b`, `n` is no
/// promotion.
fn parse_promo(c: char) -> (r: Option<Piece>)
    ensures
        r == char_promo(c),
{
    if c == 'q' {
        Some(Piece::Queen)
    } else if c == 'r' {
        Some(Piece::Rook)
    } else if c == 'b' {
        Some(Piece::Bishop)
    } else if c == 'n' {
        Some(Piece::Knight)
    } else {
        None
    }
}

/// Looks a notation text up in a legal-move list. Malformed text — fewer
/// than four characters, or a file or rank character out of range — and
/// text answering no listed move both come back empty; a found move is
/// returned as it stands in the list.
pub fn decode(text: &str, legal: &Vec<Move>) -> (r: Option<Move>)
    ensures
        r == decode_spec(text@, legal@),
{
    let n = text.unicode_len();
    if n < 4 {
        return None;
    }
    let f0 = parse_file(text.get_char(0));
    let r1 = parse_rank(text.get_char(1));
    let f2 = parse_file(text.get_char(2));
    let r3 = parse_rank(text.get_char(3));
    let (from, to) = match (f0, r1, f2, r3) {
        (Some(ff), Some(fr), Some(tf), Some(tr)) => (
            Square { file: ff, rank: fr },
            Square { file: tf, rank: tr },
        ),
        _ => {
            return None;
        },
    };
    let promo = if n >= 5 {
        parse_promo(text.get_char(4))
    } else {
        None
    };
    proof {
        assert(notation_ok(text@));
        assert(from == notation_from(text@));
        assert(to == notation_to(text@));
        assert(promo == notation_promo(text@));
    }
    let mut i: usize = 0;
    while i < legal.len()
        invariant
            0 <= i <= legal.len(),
            notation_ok(text@),
            from == notation_from(text@),
            to == notation_to(text@),
            promo == notation_promo(text@),
            match_from(legal@, text@, 0) == match_from(legal@, text@, i as int),
        decreases legal.len() - i,
    {
        let m = legal[i];
        let promo_answers = match promo {
            None => true,
            Some(p) => match m.promotion {
                Some(q) => q == p,
                None => false,
            },
        };
        if m.from == from && m.to == to && promo_answers {
            proof {
                assert(move_matches(legal@[i as int], text@));
            }
            return Some(m);
        }
        proof {
            assert(!move_matches(legal@[i as int], text@));
        }
        i = i + 1;
    }
    None
}

/// A found move stands in the list and answers the text.
pub proof fn lemma_match_from_props(legal: Seq<Move>, s: Seq<char>, i: int)
    ensures
        match_from(legal, s, i) matches Some(m) ==> legal.contains(m) && move_matches(m, s),
    decreases legal.len() - i,
{
    if 0 <= i < legal.len() {
        if move_matches(legal[i], s) {
            assert(legal.contains(legal[i]));
        } else {
            lemma_match_from_props(legal, s, i + 1);
        }
    }
}

/// Round trip: a legal move written out and read back against its own
/// list comes back as itself. The list must answer the move's text with
/// that move alone — as any legal-move list does, holding each move once
/// and never mixing promoting and non-promoting moves over one pair of
/// squares — and the move must promote, if at all, to queen, rook, bishop
/// or knight, as every listed legal move does.
pub proof fn lemma_decode_encode_roundtrip(m: Move, legal: Seq<Move>)
    requires
        m.wf(),
        m.promo_ok(),
        legal.contains(m),
        forall|j: int|
            0 <= j < legal.len() && #[trigger] move_matches(legal[j], encode_spec(m))
                ==> legal[j] == m,
    ensures
        decode_spec(encode_spec(m), legal) == Some(m),
{
    let s = encode_spec(m);
    assert(notation_ok(s));
    assert(move_matches(m, s));
    lemma_match_from_finds(legal, s, 0, m);
}

/// Round trip over a legal-move list as the rules engine yields it: the
/// list holds the move, and whether a listed move promotes depends on its
/// source square alone. Under those two facts — both promised by the
/// rules-engine boundary — the move's text reads back as the move itself.
pub proof fn lemma_roundtrip_in_legal_list(m: Move, legal: Seq<Move>)
    requires
        m.wf(),
        m.promo_ok(),
        legal.contains(m),
        forall|i: int, j: int|
            0 <= i < legal.len() && 0 <= j < legal.len() && #[trigger] legal[i].from
                == #[trigger] legal[j].from ==> (legal[i].promotion is Some <==> legal[j].promotion
                is Some),
    ensures
        decode_spec(encode_spec(m), legal) == Some(m),
{
    let s = encode_spec(m);
    assert(move_matches(m, s));
    let k = choose|k: int| 0 <= k < legal.len() && legal[k] == m;
    assert forall|j: int|
        0 <= j < legal.len() && #[trigger] move_matches(legal[j], s) implies legal[j] == m by {
        let e = legal[j];
        assert(e.from == m.from && e.to == m.to);
        match m.promotion {
            Some(p) => {
                assert(notation_promo(s) == Some(p));
                assert(e.promotion == Some(p));
            },
            None => {
                assert(notation_promo(s) is None);
                assert(legal[j].from == legal[k].from);
                assert(e.promotion is None);
            },
        }
    }
    lemma_decode_encode_roundtrip(m, legal);
}

/// Helper for the round trip: scanning from any point before a move that
/// answers the text, when every answering entry is that move, finds it.
proof fn lemma_match_from_finds(legal: Seq<Move>, s: Seq<char>, i: int, target: Move)
    requires
        0 <= i <= legal.len(),
        exists|j: int| i <= j < legal.len() && legal[j] == target,
        move_matches(target, s),
        forall|j: int|
            0 <= j < legal.len() && #[trigger] move_matches(legal[j], s) ==> legal[j] == target,
    ensures
        match_from(legal, s, i) == Some(target),
    decreases legal.len() - i,
{
    let j0 = choose|j: int| i <= j < legal.len() && legal[j] == target;
    if move_matches(legal[i], s) {
        assert(legal[i] == target);
    } else {
        assert(legal[i] != target);
        assert(i + 1 <= j0 < legal.len());
        lemma_match_from_finds(legal, s, i + 1, target);
    }
}

} // verus!
