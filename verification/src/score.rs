//! The reveal at the end of a match: both hands, their scores and the
//! winner.

use vstd::prelude::*;
use crate::card::{Card, CardPublicFull, card_public_full, points, rank_points};
use crate::game::{GameState, Seat};
use crate::model::{GameView, PlayerId};

verus! {

/// Points of a slot: those of its card, nothing if it is empty.
pub open spec fn slot_points(s: Option<Card>) -> nat {
    match s {
        Some(c) => points(c),
        None => 0,
    }
}

/// A seat's score: the sum of the points of the cards in its six slots.
pub open spec fn score(slots: Seq<Option<Card>>) -> nat {
    slot_points(slots[0]) + slot_points(slots[1]) + slot_points(slots[2]) + slot_points(slots[3])
        + slot_points(slots[4]) + slot_points(slots[5])
}

/// What a slot shows at the reveal: its card in full, if it holds one.
pub open spec fn slot_shown(s: Option<Card>) -> Seq<CardPublicFull> {
    match s {
        Some(c) => seq![CardPublicFull { rank: c.rank, suit: c.suit }],
        None => Seq::empty(),
    }
}

/// A seat's cards, shown in full, in slot order; empty slots are left out.
pub open spec fn hand(slots: Seq<Option<Card>>) -> Seq<CardPublicFull> {
    slot_shown(slots[0]) + slot_shown(slots[1]) + slot_shown(slots[2]) + slot_shown(slots[3])
        + slot_shown(slots[4]) + slot_shown(slots[5])
}

/// The winner of a match: the player with the strictly lower score. Equal
/// scores leave the match drawn.
pub open spec fn winner(g: GameView) -> Option<PlayerId> {
    let a = score(g.seats[0].slots);
    let b = score(g.seats[1].slots);
    if a < b {
        Some(g.seats[0].id)
    } else if b < a {
        Some(g.seats[1].id)
    } else {
        None
    }
}

/// No card counts for more than thirteen points, so no seat for more than
/// 78.
pub proof fn lemma_score_bound(slots: Seq<Option<Card>>)
    ensures
        score(slots) <= 78,
{
}

/// Scoring law. The winner is the player whose cards sum to strictly fewer
/// points than the opponent's, and there is none exactly when the sums are
/// equal.
pub proof fn lemma_scoring_law(g: GameView)
    requires
        g.wf(),
    ensures
        forall|p: PlayerId|
            winner(g) == Some(p) <==> g.has_seat(p) && score(g.seat_of(p).slots) < score(
                g.seat_of(g.opponent_of(p)).slots,
            ),
        winner(g) is None <==> score(g.seats[0].slots) == score(g.seats[1].slots),
{
}

/// The outcome of a match, as shown to both players.
#[derive(Debug)]
pub struct Showdown {
    /// Score of the first seat.
    pub first_score: u32,
    /// Score of the second seat.
    pub second_score: u32,
    /// Cards of the first seat.
    pub first_cards: Vec<CardPublicFull>,
    /// Cards of the second seat.
    pub second_cards: Vec<CardPublicFull>,
    pub winner: Option<PlayerId>,
}

/// The sum of the points in the first `n` slots.
spec fn score_upto(slots: Seq<Option<Card>>, n: int) -> nat
    decreases n,
{
    if n <= 0 {
        0
    } else {
        score_upto(slots, n - 1) + slot_points(slots[n - 1])
    }
}

/// The cards in the first `n` slots, shown in full.
spec fn hand_upto(slots: Seq<Option<Card>>, n: int) -> Seq<CardPublicFull>
    decreases n,
{
    if n <= 0 {
        Seq::empty()
    } else {
        hand_upto(slots, n - 1) + slot_shown(slots[n - 1])
    }
}

/// Going through six slots one after the other gives the score and the
/// hand.
proof fn lemma_six_slots(slots: Seq<Option<Card>>)
    ensures
        score_upto(slots, 6) == score(slots),
        hand_upto(slots, 6) == hand(slots),
{
    reveal_with_fuel(score_upto, 7);
    reveal_with_fuel(hand_upto, 7);
    assert(hand_upto(slots, 6) =~= hand(slots));
}

/// Adds up a seat and lists its cards.
pub fn score_seat(seat: &Seat) -> (r: (u32, Vec<CardPublicFull>))
    requires
        seat.slots@.len() == 6,
    ensures
        r.0 == score(seat.slots@),
        r.1@ == hand(seat.slots@),
{
    let mut total: u32 = 0;
    let mut cards: Vec<CardPublicFull> = Vec::new();
    let mut k: usize = 0;
    while k < 6
        invariant
            k <= 6,
            seat.slots@.len() == 6,
            total == score_upto(seat.slots@, k as int),
            total <= 13 * k,
            cards@ == hand_upto(seat.slots@, k as int),
        decreases 6 - k,
    {
        match seat.slots[k] {
            Some(c) => {
                total = total + rank_points(&c);
                cards.push(card_public_full(&c));
                assert(cards@ =~= hand_upto(seat.slots@, k as int) + slot_shown(
                    seat.slots@[k as int],
                ));
            },
            None => {
                assert(cards@ =~= hand_upto(seat.slots@, k as int) + slot_shown(
                    seat.slots@[k as int],
                ));
            },
        }
        k = k + 1;
    }
    proof {
        lemma_six_slots(seat.slots@);
    }
    (total, cards)
}

impl GameState {
    /// Reveals both hands and names the winner.
    pub fn showdown(&self) -> (r: Showdown)
        requires
            self@.wf(),
        ensures
            r.first_score == score(self@.seats[0].slots),
            r.second_score == score(self@.seats[1].slots),
            r.first_cards@ == hand(self@.seats[0].slots),
            r.second_cards@ == hand(self@.seats[1].slots),
            r.winner == winner(self@),
    {
        let (a, cards_a) = score_seat(&self.seats[0].seat);
        let (b, cards_b) = score_seat(&self.seats[1].seat);
        let w = if a < b {
            Some(self.seats[0].id)
        } else if b < a {
            Some(self.seats[1].id)
        } else {
            None
        };
        Showdown {
            first_score: a,
            second_score: b,
            first_cards: cards_a,
            second_cards: cards_b,
            winner: w,
        }
    }
}

} // verus!
