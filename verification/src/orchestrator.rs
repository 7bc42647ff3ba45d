//! The interaction loop's decisions. The loop itself — terminal events,
//! the tick timer, the engine's pipes — lives with the caller; what is
//! decided each tick stands here: turning key presses into chosen
//! squares, answering a chosen square with a possible think request, and
//! the discipline that never leaves two think requests outstanding.

use vstd::prelude::*;

use crate::board::GameOutcome;
use crate::board::Square;
use crate::codec::file_index;
use crate::codec::is_file_char;
use crate::codec::is_rank_char;
use crate::codec::rank_index;
use crate::game::ChessGame;
use crate::rules;
use crate::rules::fen_of;
use crate::rules::outcome_of;
use crate::rules::side_to_move_of;
use vstd::string::StringExecFns;

verus! {

/// Collects a square from single key presses: a file letter `a`-`h`
/// opens a square, a rank digit `1`-`8` right after completes it, and
/// any other key — including a stray second key that is no rank digit —
/// resets the collector to no selection.
pub struct InputCollector {
    pub pending_file: Option<u8>,
}

impl InputCollector {
    /// A held file index lies on the board.
    pub open spec fn wf(self) -> bool {
        self.pending_file matches Some(f) ==> f < 8
    }

    /// An empty collector.
    pub fn new() -> (c: InputCollector)
        ensures
            c.wf(),
            c.pending_file is None,
    {
        InputCollector { pending_file: None }
    }

    /// Feeds one key press; a completed square comes back.
    pub fn on_key(&mut self, c: char) -> (r: Option<Square>)
        requires
            old(self).wf(),
        ensures
            final(self).wf(),
            is_file_char(c) ==> final(self).pending_file == Some(file_index(c)) && r is None,
            (!is_file_char(c) && is_rank_char(c)) ==> match old(self).pending_file {
                Some(f) => r == Some(Square { file: f, rank: rank_index(c) })
                    && final(self).pending_file is None,
                None => r is None && final(self).pending_file is None,
            },
            (!is_file_char(c) && !is_rank_char(c)) ==> r is None && final(self).pending_file
                is None,
            r matches Some(sq) ==> sq.wf(),
    {
        let v = c as u32;
        if 97 <= v && v <= 104 {
            self.pending_file = Some((v - 97) as u8);
            None
        } else if 49 <= v && v <= 56 {
            match self.pending_file {
                Some(f) => {
                    self.pending_file = None;
                    Some(Square { file: f, rank: (v - 49) as u8 })
                },
                None => {
                    self.pending_file = None;
                    None
                },
            }
        } else {
            self.pending_file = None;
            None
        }
    }
}

/// The outcome's name, as the status line reports it.
pub open spec fn outcome_label(o: GameOutcome) -> Seq<char> {
    match o {
        GameOutcome::WhiteCheckmates => "WhiteCheckmates"@,
        GameOutcome::WhiteResigns => "WhiteResigns"@,
        GameOutcome::BlackCheckmates => "BlackCheckmates"@,
        GameOutcome::BlackResigns => "BlackResigns"@,
        GameOutcome::Stalemate => "Stalemate"@,
        GameOutcome::DrawAccepted => "DrawAccepted"@,
        GameOutcome::DrawDeclared => "DrawDeclared"@,
    }
}

/// The text of `outcome_label`.
fn outcome_label_str(o: GameOutcome) -> (r: &'static str)
    ensures
        r@ == outcome_label(o),
{
    match o {
        GameOutcome::WhiteCheckmates => "WhiteCheckmates",
        GameOutcome::WhiteResigns => "WhiteResigns",
        GameOutcome::BlackCheckmates => "BlackCheckmates",
        GameOutcome::BlackResigns => "BlackResigns",
        GameOutcome::Stalemate => "Stalemate",
        GameOutcome::DrawAccepted => "DrawAccepted",
        GameOutcome::DrawDeclared => "DrawDeclared",
    }
}

/// Answers the human choosing a square. While the engine thinks, square
/// events are ignored outright. Otherwise the square goes to the game's
/// selection logic; when that plays a move and the game goes on, the
/// thinking flag rises and the position's text comes back for the caller
/// to hand the bridge as a think request — the only place a request is
/// ever issued, and only with the flag down. When the move ends the
/// game, the status line reports the outcome instead and no request is
/// made.
pub fn on_square_chosen(game: &mut ChessGame, square: Square) -> (request: Option<String>)
    requires
        old(game).wf(),
        square.wf(),
    ensures
        final(game).wf(),
        old(game).thinking ==> *final(game) == *old(game) && request is None,
        !old(game).thinking ==> {
            &&& (request is Some <==> (old(game).move_made(square)
                && outcome_of(final(game).game) is None))
            &&& final(game).thinking == (request is Some)
            &&& (request matches Some(f) ==> f@ == fen_of(final(game).game)
                && final(game).message@ == "Engine is thinking..."@)
            &&& (!old(game).move_made(square) ==> final(game).game == old(game).game
                && final(game).selected_square == old(game).selection_after(square))
            &&& (old(game).move_made(square) ==> final(game).game == rules::game_after(
                old(game).game,
                old(game).selection_hit(square).unwrap(),
            ) && side_to_move_of(final(game).game) == side_to_move_of(
                old(game).game,
            ).spec_other())
            &&& (old(game).move_made(square) ==> match outcome_of(final(game).game) {
                Some(o) => final(game).message@ == "Game over: "@ + outcome_label(o),
                None => true,
            })
        },
{
    if game.is_thinking() {
        return None;
    }
    let moved = game.select_square(square);
    if !moved {
        return None;
    }
    match game.game_result() {
        Some(outcome) => {
            let mut msg = String::from_str("Game over: ");
            msg.append(outcome_label_str(outcome));
            game.set_message(msg);
            None
        },
        None => {
            game.set_thinking(true);
            Some(game.current_position())
        },
    }
}

/// One tick's effect on the thinking flag, abstracted: a think request
/// went out, an engine move was applied, the flag was reset by hand, or
/// nothing of the kind happened.
#[derive(Clone, Copy, Debug, PartialEq, Eq, Structural)]
pub enum ThinkEvent {
    Requested,
    Applied,
    Reset,
    Quiet,
}

/// The thinking flag after one event.
pub open spec fn think_after(t: bool, e: ThinkEvent) -> bool {
    match e {
        ThinkEvent::Requested => true,
        ThinkEvent::Applied => false,
        ThinkEvent::Reset => false,
        ThinkEvent::Quiet => t,
    }
}

/// The thinking flag after a whole trace of events.
pub open spec fn think_flag(t0: bool, events: Seq<ThinkEvent>) -> bool
    decreases events.len(),
{
    if events.len() == 0 {
        t0
    } else {
        think_after(think_flag(t0, events.drop_last()), events.last())
    }
}

/// A trace is disciplined when every request is issued with the flag
/// down — exactly what `on_square_chosen` guarantees, since it ignores
/// squares while the flag is up and raises it with every request.
pub open spec fn disciplined(t0: bool, events: Seq<ThinkEvent>) -> bool {
    forall|i: int|
        0 <= i < events.len() && #[trigger] events[i] == ThinkEvent::Requested ==> !think_flag(
            t0,
            events.take(i),
        )
}

/// A disciplined trace stays disciplined under one more tick, as long as
/// a request is only appended with the flag down — which is how every
/// request leaves `on_square_chosen`: only when the flag was false, and
/// raising it.
pub proof fn lemma_disciplined_step(t0: bool, events: Seq<ThinkEvent>, e: ThinkEvent)
    requires
        disciplined(t0, events),
        e == ThinkEvent::Requested ==> !think_flag(t0, events),
    ensures
        disciplined(t0, events.push(e)),
{
    let stepped = events.push(e);
    assert forall|i: int|
        0 <= i < stepped.len() && #[trigger] stepped[i] == ThinkEvent::Requested implies !think_flag(
        t0,
        stepped.take(i),
    ) by {
        assert(stepped.take(i) =~= events.take(i));
        if i < events.len() {
            assert(events[i] == ThinkEvent::Requested);
        } else {
            assert(stepped.take(i) =~= events);
        }
    }
}

/// Between a raised flag and a lowered one stands an apply or a reset.
proof fn lemma_flag_fell(t0: bool, events: Seq<ThinkEvent>, a: int, b: int)
    requires
        0 <= a <= b <= events.len(),
        think_flag(t0, events.take(a)),
        !think_flag(t0, events.take(b)),
    ensures
        exists|k: int|
            a <= k < b && (events[k] == ThinkEvent::Applied || events[k] == ThinkEvent::Reset),
    decreases b - a,
{
    assert(a != b);
    assert(events.take(b).drop_last() =~= events.take(b - 1));
    assert(events.take(b).last() == events[b - 1]);
    match events[b - 1] {
        ThinkEvent::Applied => {
            assert(events[b - 1] == ThinkEvent::Applied);
        },
        ThinkEvent::Reset => {
            assert(events[b - 1] == ThinkEvent::Reset);
        },
        ThinkEvent::Requested => {
            assert(think_flag(t0, events.take(b)));
        },
        ThinkEvent::Quiet => {
            assert(!think_flag(t0, events.take(b - 1)));
            lemma_flag_fell(t0, events, a, b - 1);
        },
    }
}

/// At most one pending think: in a disciplined trace, two think requests
/// always have an applied engine move or an explicit reset of the
/// thinking flag between them — the orchestrator never issues a second
/// request while one is outstanding.
pub proof fn lemma_at_most_one_pending_think(t0: bool, events: Seq<ThinkEvent>, i: int, j: int)
    requires
        disciplined(t0, events),
        0 <= i < j < events.len(),
        events[i] == ThinkEvent::Requested,
        events[j] == ThinkEvent::Requested,
    ensures
        exists|k: int|
            i < k < j && (events[k] == ThinkEvent::Applied || events[k] == ThinkEvent::Reset),
{
    assert(events.take(i + 1).drop_last() =~= events.take(i));
    assert(events.take(i + 1).last() == events[i]);
    assert(think_flag(t0, events.take(i + 1)));
    assert(!think_flag(t0, events.take(j)));
    lemma_flag_fell(t0, events, i + 1, j);
    let k = choose|k: int|
        i + 1 <= k < j && (events[k] == ThinkEvent::Applied || events[k] == ThinkEvent::Reset);
    assert(i < k < j && (events[k] == ThinkEvent::Applied || events[k] == ThinkEvent::Reset));
}

} // verus!
