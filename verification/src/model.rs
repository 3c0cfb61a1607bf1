//! The game as mathematics: the abstract state of one match and, for every
//! action a player may take, the state that follows it or the reason for
//! which it is refused.
//!
//! The executable engine is specified against these definitions and the laws
//! of the game are proved about them.

use vstd::prelude::*;
use vstd::multiset::Multiset;
use crate::card::{Card, Rank};

verus! {

/// Identifies a player; the 128 bits of the identifier handed out at join time.
pub type PlayerId = u128;

/// Number of card slots in front of each player.
pub const SLOTS: usize = 6;

/// The pile a card is drawn from.
#[derive(Clone, Copy, Debug, PartialEq, Eq, Structural)]
pub enum DrawSource {
    Deck,
    Discard,
}

/// The phase of the current turn.
#[derive(Clone, Copy, Debug, PartialEq, Eq, Structural)]
pub enum TurnStage {
    /// The active player has not drawn yet.
    AwaitDraw,
    /// The active player holds a drawn card, taken from `from`.
    Holding { card: Card, from: DrawSource },
    /// The active player discarded `card` and may use its power once.
    Power { card: Card },
}

/// A pending end of game: `caller` called Zobbo and the game ends when
/// `remaining` turns have passed.
#[derive(Clone, Copy, Debug, PartialEq, Eq, Structural)]
pub struct ZobboState {
    pub caller: PlayerId,
    pub remaining: u8,
}

/// Why an action was refused. A refused action changes nothing.
#[derive(Clone, Copy, Debug, PartialEq, Eq, Structural)]
pub enum Rejection {
    /// The room has no game in progress.
    NoGame,
    /// The player has no seat in this game.
    UnknownPlayer,
    /// The action belongs to the active player and the caller is not active.
    NotYourTurn,
    /// Zobbo can only be called by the player who is not active.
    OwnTurn,
    /// The turn is not in the stage the action needs.
    WrongStage,
    /// The discarded card does not grant this power.
    WrongPower,
    /// The slot index is out of range.
    BadIndex,
    /// The chosen slot holds no card.
    EmptySlot,
    /// The chosen pile holds no card.
    EmptyPile,
}

/// One player's side of the table.
pub struct SeatSpec {
    pub id: PlayerId,
    pub slots: Seq<Option<Card>>,
    pub versions: Seq<u64>,
    /// The player's next turn is forfeited.
    pub skip_next: bool,
}

/// The abstract state of a match between two players.
pub struct GameView {
    /// Draw pile; the last card is on top.
    pub deck: Seq<Card>,
    /// Discard pile; the last card is on top.
    pub discard: Seq<Card>,
    /// The two seats, in the order in which the players joined.
    pub seats: Seq<SeatSpec>,
    pub active: PlayerId,
    pub stage: TurnStage,
    pub zobbo: Option<ZobboState>,
}

/// The version of a slot after one more change; the counter wraps around.
pub open spec fn bump(v: u64) -> u64 {
    if v == u64::MAX {
        0
    } else {
        (v + 1) as u64
    }
}

/// The cards a slot contributes to the table: its card, if it holds one.
pub open spec fn slot_cards(s: Option<Card>) -> Multiset<Card> {
    match s {
        Some(c) => Multiset::singleton(c),
        None => Multiset::empty(),
    }
}

/// 1 for an occupied slot, 0 for an empty one.
pub open spec fn filled(s: Option<Card>) -> nat {
    if s is Some {
        1
    } else {
        0
    }
}

/// The cards lying in six slots.
pub open spec fn seat_cards(slots: Seq<Option<Card>>) -> Multiset<Card> {
    slot_cards(slots[0]).add(slot_cards(slots[1])).add(slot_cards(slots[2])).add(
        slot_cards(slots[3]),
    ).add(slot_cards(slots[4])).add(slot_cards(slots[5]))
}

/// How many of six slots are occupied.
pub open spec fn occupied(slots: Seq<Option<Card>>) -> nat {
    filled(slots[0]) + filled(slots[1]) + filled(slots[2]) + filled(slots[3]) + filled(slots[4])
        + filled(slots[5])
}

/// How often `c` lies in a slot: once or not at all.
pub open spec fn slot_count(s: Option<Card>, c: Card) -> nat {
    if s == Some(c) {
        1
    } else {
        0
    }
}

/// How often `c` lies in six slots.
#[verifier::opaque]
pub open spec fn seat_count(slots: Seq<Option<Card>>, c: Card) -> nat {
    slot_count(slots[0], c) + slot_count(slots[1], c) + slot_count(slots[2], c) + slot_count(
        slots[3],
        c,
    ) + slot_count(slots[4], c) + slot_count(slots[5], c)
}

/// How often `c` is in the active player's hand.
pub open spec fn held_count(stage: TurnStage, c: Card) -> nat {
    match stage {
        TurnStage::Holding { card, from } => if card == c {
            1
        } else {
            0
        },
        _ => 0,
    }
}

/// The card in the active player's hand, if the turn is in the holding stage.
pub open spec fn held_cards(stage: TurnStage) -> Multiset<Card> {
    match stage {
        TurnStage::Holding { card, from } => Multiset::singleton(card),
        _ => Multiset::empty(),
    }
}

/// Whether discarding `card` grants a power: five to queen always, a king
/// only if it is red.
pub open spec fn grants_power(card: Card) -> bool {
    match card.rank {
        Rank::Five | Rank::Six | Rank::Seven | Rank::Eight | Rank::Nine | Rank::Ten | Rank::Jack
        | Rank::Queen => true,
        Rank::King => card.suit.red(),
        _ => false,
    }
}

/// The powers a discarded card can grant.
#[derive(Clone, Copy, Debug, PartialEq, Eq, Structural)]
pub enum Power {
    /// Look at one of one's own cards (five to eight).
    CheckOwn,
    /// Look at one of the opponent's cards (nine, ten).
    CheckOpponent,
    /// Exchange one of one's own cards with the top of the deck (jack).
    SwapWithDeck,
    /// Exchange one of one's own cards with one of the opponent's (queen).
    SwapWithOpponent,
    /// Exchange one of the opponent's cards with the top of the deck (red king).
    OpponentSwapWithDeck,
}

/// Whether `card` is one of those that grant `power`.
pub open spec fn allows(card: Card, power: Power) -> bool {
    match power {
        Power::CheckOwn => card.rank == Rank::Five || card.rank == Rank::Six || card.rank
            == Rank::Seven || card.rank == Rank::Eight,
        Power::CheckOpponent => card.rank == Rank::Nine || card.rank == Rank::Ten,
        Power::SwapWithDeck => card.rank == Rank::Jack,
        Power::SwapWithOpponent => card.rank == Rank::Queen,
        Power::OpponentSwapWithDeck => card.rank == Rank::King && card.suit.red(),
    }
}

impl SeatSpec {
    /// Six slots, each with its version counter.
    pub open spec fn wf(self) -> bool {
        self.slots.len() == 6 && self.versions.len() == 6
    }

    /// The seat with `card` (or nothing) put in slot `i` and the slot's
    /// version advanced by one.
    pub open spec fn put(self, i: int, card: Option<Card>) -> SeatSpec {
        SeatSpec {
            slots: self.slots.update(i, card),
            versions: self.versions.update(i, bump(self.versions[i])),
            ..self
        }
    }
}

impl GameView {
    /// Validity of a state: two distinct seats of six slots, the active
    /// player seated, a pending Zobbo called by a seated player, and in the
    /// power stage the power card lying on top of the discard pile.
    pub open spec fn wf(self) -> bool {
        &&& self.seats.len() == 2
        &&& self.seats[0].wf()
        &&& self.seats[1].wf()
        &&& self.seats[0].id != self.seats[1].id
        &&& self.has_seat(self.active)
        &&& (self.zobbo matches Some(z) ==> self.has_seat(z.caller))
        &&& (self.stage matches TurnStage::Power { card } ==> self.discard.len() > 0
            && self.discard.last() == card)
    }

    /// Whether `pid` is one of the two players.
    pub open spec fn has_seat(self, pid: PlayerId) -> bool {
        self.seats[0].id == pid || self.seats[1].id == pid
    }

    /// Index of the seat of `pid` (meaningful when `pid` has a seat).
    pub open spec fn seat_index(self, pid: PlayerId) -> int {
        if self.seats[0].id == pid {
            0
        } else {
            1
        }
    }

    /// The seat of `pid`.
    pub open spec fn seat_of(self, pid: PlayerId) -> SeatSpec {
        self.seats[self.seat_index(pid)]
    }

    /// The other player.
    pub open spec fn opponent_of(self, pid: PlayerId) -> PlayerId {
        self.seats[1 - self.seat_index(pid)].id
    }

    /// The players whose next turn is forfeited.
    pub open spec fn skip_next(self) -> Set<PlayerId> {
        Set::new(
            |p: PlayerId|
                (self.seats[0].id == p && self.seats[0].skip_next) || (self.seats[1].id == p
                    && self.seats[1].skip_next),
        )
    }

    /// Every card of the match: both piles, both seats and the hand.
    pub open spec fn cards(self) -> Multiset<Card> {
        self.deck.to_multiset().add(self.discard.to_multiset()).add(
            seat_cards(self.seats[0].slots),
        ).add(seat_cards(self.seats[1].slots)).add(held_cards(self.stage))
    }

    /// How often `c` occurs in the match: in the piles, the seats and the
    /// hand. Equal to `self.cards().count(c)`.
    pub open spec fn copies(self, c: Card) -> nat {
        self.deck.to_multiset().count(c) + self.discard.to_multiset().count(c) + seat_count(
            self.seats[0].slots,
            c,
        ) + seat_count(self.seats[1].slots, c) + held_count(self.stage, c)
    }

    /// Number of cards lying on the table: the piles and the occupied slots.
    pub open spec fn cards_on_table(self) -> nat {
        self.deck.len() + self.discard.len() + occupied(self.seats[0].slots) + occupied(
            self.seats[1].slots,
        )
    }

    /// The state with the seat at index `i` replaced.
    pub open spec fn with_seat(self, i: int, seat: SeatSpec) -> GameView {
        GameView { seats: self.seats.update(i, seat), ..self }
    }

    /// The countdown after one more turn; it stops at zero.
    pub open spec fn ticked(z: Option<ZobboState>) -> Option<ZobboState> {
        match z {
            Some(z) => Some(
                ZobboState {
                    caller: z.caller,
                    remaining: if z.remaining > 0 {
                        (z.remaining - 1) as u8
                    } else {
                        0
                    },
                },
            ),
            None => None,
        }
    }

    /// The end of a turn. The turn passes to the other player, unless that
    /// player owes a skipped turn: then the debt is cleared and the active
    /// player stays. The stage returns to `AwaitDraw` and a pending Zobbo
    /// countdown loses one turn. No card is lost: should one still be in
    /// hand, which no action of a player leaves there, it goes to the
    /// discard pile.
    pub open spec fn end_turn(self) -> GameView {
        let next = 1 - self.seat_index(self.active);
        let skipped = self.seats[next].skip_next;
        GameView {
            discard: match self.stage {
                TurnStage::Holding { card, from } => self.discard.push(card),
                _ => self.discard,
            },
            seats: if skipped {
                self.seats.update(next, SeatSpec { skip_next: false, ..self.seats[next] })
            } else {
                self.seats
            },
            active: if skipped {
                self.active
            } else {
                self.seats[next].id
            },
            stage: TurnStage::AwaitDraw,
            zobbo: Self::ticked(self.zobbo),
            ..self
        }
    }

    /// The turn in progress is the last one: its end brings the Zobbo
    /// countdown to zero, and with it the reveal. This holds of one turn
    /// of a match at most.
    pub open spec fn last_turn(self) -> bool {
        self.zobbo matches Some(z) && z.remaining == 1
    }

    /// The Zobbo countdown has run out: the hands have been revealed.
    pub open spec fn finished(self) -> bool {
        self.zobbo matches Some(z) && z.remaining == 0
    }

    /// Whether the deck must be rebuilt from the discard pile before a card
    /// can be taken from it.
    pub open spec fn needs_refill(self) -> bool {
        self.deck.len() == 0 && self.discard.len() > 1
    }

    /// `next` is what may follow when the deck is made ready for a draw. An
    /// empty deck is rebuilt from the discard pile, its top card excepted,
    /// in some order; otherwise nothing changes.
    pub open spec fn refills_to(self, next: GameView) -> bool {
        if self.needs_refill() {
            &&& next == GameView { deck: next.deck, discard: seq![self.discard.last()], ..self }
            &&& next.deck.to_multiset() == self.discard.drop_last().to_multiset()
        } else {
            next == self
        }
    }

    /// Why `pid` may not draw from `src`, if so.
    pub open spec fn draw_rejection(self, pid: PlayerId, src: DrawSource) -> Option<Rejection> {
        if self.active != pid {
            Some(Rejection::NotYourTurn)
        } else if self.stage != TurnStage::AwaitDraw {
            Some(Rejection::WrongStage)
        } else if src == DrawSource::Deck && self.deck.len() == 0 && self.discard.len() <= 1 {
            Some(Rejection::EmptyPile)
        } else if src == DrawSource::Discard && self.discard.len() == 0 {
            Some(Rejection::EmptyPile)
        } else {
            None
        }
    }

    /// The state after the top card of a non-empty pile went to the hand.
    pub open spec fn after_draw(self, src: DrawSource) -> GameView {
        match src {
            DrawSource::Deck => GameView {
                deck: self.deck.drop_last(),
                stage: TurnStage::Holding { card: self.deck.last(), from: src },
                ..self
            },
            DrawSource::Discard => GameView {
                discard: self.discard.drop_last(),
                stage: TurnStage::Holding { card: self.discard.last(), from: src },
                ..self
            },
        }
    }

    /// Why `pid` may not put the held card into slot `index`, if so.
    pub open spec fn swap_rejection(self, pid: PlayerId, index: int) -> Option<Rejection> {
        if self.active != pid {
            Some(Rejection::NotYourTurn)
        } else if !(self.stage is Holding) {
            Some(Rejection::WrongStage)
        } else if !(0 <= index < 6) {
            Some(Rejection::BadIndex)
        } else if self.seat_of(pid).slots[index] is None {
            Some(Rejection::EmptySlot)
        } else {
            None
        }
    }

    /// The held card takes the place of the card in slot `index`, which goes
    /// to the discard pile. The hand is empty again; the turn is still to
    /// be ended.
    pub open spec fn after_swap(self, pid: PlayerId, index: int) -> GameView {
        let i = self.seat_index(pid);
        let seat = self.seats[i];
        GameView {
            discard: self.discard.push(seat.slots[index]->0),
            stage: TurnStage::AwaitDraw,
            ..self.with_seat(i, seat.put(index, Some(self.stage->Holding_card)))
        }
    }

    /// Why `pid` may not discard the held card, if so.
    pub open spec fn discard_rejection(self, pid: PlayerId) -> Option<Rejection> {
        if self.active != pid {
            Some(Rejection::NotYourTurn)
        } else if !(self.stage is Holding) {
            Some(Rejection::WrongStage)
        } else {
            None
        }
    }

    /// Whether discarding the held card opens the power stage: it must have
    /// come from the deck and be one of the power cards.
    pub open spec fn discard_opens_power(self) -> bool {
        self.stage matches TurnStage::Holding { card, from } && from == DrawSource::Deck
            && grants_power(card)
    }

    /// The held card goes to the discard pile. Either its power opens, or
    /// the hand is simply empty again and the turn is to be ended.
    pub open spec fn after_discard(self) -> GameView {
        let card = self.stage->Holding_card;
        GameView {
            discard: self.discard.push(card),
            stage: if self.discard_opens_power() {
                TurnStage::Power { card }
            } else {
                TurnStage::AwaitDraw
            },
            ..self
        }
    }

    /// Why `pid` may not try to match the discard pile's top card with slot
    /// `index`, if so.
    pub open spec fn match_rejection(self, pid: PlayerId, index: int) -> Option<Rejection> {
        if self.stage != TurnStage::AwaitDraw {
            Some(Rejection::WrongStage)
        } else if self.discard.len() == 0 {
            Some(Rejection::EmptyPile)
        } else if !self.has_seat(pid) {
            Some(Rejection::UnknownPlayer)
        } else if !(0 <= index < 6) {
            Some(Rejection::BadIndex)
        } else if self.seat_of(pid).slots[index] is None {
            Some(Rejection::EmptySlot)
        } else {
            None
        }
    }

    /// Whether the card in slot `index` of `pid` has the rank of the discard
    /// pile's top card.
    pub open spec fn matches_top(self, pid: PlayerId, index: int) -> bool {
        self.seat_of(pid).slots[index]->0.rank == self.discard.last().rank
    }

    /// A match attempt. On a match the card leaves its slot for the discard
    /// pile; otherwise the player owes a skipped turn and nothing else
    /// changes. The turn goes on either way.
    pub open spec fn after_match(self, pid: PlayerId, index: int) -> GameView {
        let i = self.seat_index(pid);
        let seat = self.seats[i];
        if self.matches_top(pid, index) {
            GameView {
                discard: self.discard.push(seat.slots[index]->0),
                ..self.with_seat(i, seat.put(index, None))
            }
        } else {
            self.with_seat(i, SeatSpec { skip_next: true, ..seat })
        }
    }

    /// Why `pid` may not call Zobbo, if so.
    pub open spec fn zobbo_rejection(self, pid: PlayerId) -> Option<Rejection> {
        if self.stage != TurnStage::AwaitDraw {
            Some(Rejection::WrongStage)
        } else if self.active == pid {
            Some(Rejection::OwnTurn)
        } else if !self.has_seat(pid) {
            Some(Rejection::UnknownPlayer)
        } else {
            None
        }
    }

    /// Zobbo is called: the game ends in two turns. A call that is already
    /// pending stays as it is.
    pub open spec fn after_zobbo(self, pid: PlayerId) -> GameView {
        if self.zobbo is None {
            GameView { zobbo: Some(ZobboState { caller: pid, remaining: 2 }), ..self }
        } else {
            self
        }
    }

    /// Why `pid` may not use `power` at all, whatever the slots chosen: the
    /// checks on turn, stage and the discarded card.
    pub open spec fn power_gate(self, pid: PlayerId, power: Power) -> Option<Rejection> {
        if self.active != pid {
            Some(Rejection::NotYourTurn)
        } else if !(self.stage is Power) {
            Some(Rejection::WrongStage)
        } else if !allows(self.stage->Power_card, power) {
            Some(Rejection::WrongPower)
        } else {
            None
        }
    }

    /// Why `pid` may not look at slot `index` of the player `target`, if so.
    pub open spec fn peek_rejection(
        self,
        pid: PlayerId,
        power: Power,
        target: PlayerId,
        index: int,
    ) -> Option<Rejection> {
        if self.power_gate(pid, power) is Some {
            self.power_gate(pid, power)
        } else if !(0 <= index < 6) {
            Some(Rejection::BadIndex)
        } else if self.seat_of(target).slots[index] is None {
            Some(Rejection::EmptySlot)
        } else {
            None
        }
    }

    /// Why `pid` may not exchange slot `index` of a seat with the deck.
    pub open spec fn deck_swap_rejection(self, pid: PlayerId, power: Power, index: int) -> Option<
        Rejection,
    > {
        if self.power_gate(pid, power) is Some {
            self.power_gate(pid, power)
        } else if !(0 <= index < 6) {
            Some(Rejection::BadIndex)
        } else {
            None
        }
    }

    /// `next` is what may follow when the deck is made ready for drawing from
    /// `src`: for the deck see [`Self::refills_to`]; the discard pile is
    /// taken as it is.
    pub open spec fn ready_for(self, src: DrawSource, next: GameView) -> bool {
        match src {
            DrawSource::Deck => self.refills_to(next),
            DrawSource::Discard => next == self,
        }
    }

    /// `next` is what may follow when the deck is made ready for an exchange
    /// with slot `index` of the seat at `seat`. The deck is only touched if
    /// the slot holds a card.
    pub open spec fn ready_for_deck_swap(self, seat: int, index: int, next: GameView) -> bool {
        if self.seats[seat].slots[index] is Some {
            self.refills_to(next)
        } else {
            next == self
        }
    }

    /// Slot `index` of the seat at `seat` takes the top card of the deck and
    /// its former card becomes the new top of the deck. With an empty deck
    /// or an empty slot nothing moves.
    pub open spec fn slot_swapped_with_deck(self, seat: int, index: int) -> GameView {
        if self.deck.len() == 0 || self.seats[seat].slots[index] is None {
            self
        } else {
            let s = self.seats[seat];
            GameView {
                deck: self.deck.drop_last().push(s.slots[index]->0),
                ..self.with_seat(seat, s.put(index, Some(self.deck.last())))
            }
        }
    }

    /// Why `pid` may not exchange the own slot `mine` with the opponent's
    /// slot `theirs`, if so.
    pub open spec fn trade_rejection(self, pid: PlayerId, mine: int, theirs: int) -> Option<
        Rejection,
    > {
        if self.power_gate(pid, Power::SwapWithOpponent) is Some {
            self.power_gate(pid, Power::SwapWithOpponent)
        } else if !(0 <= mine < 6) {
            Some(Rejection::BadIndex)
        } else if self.seat_of(pid).slots[mine] is None {
            Some(Rejection::EmptySlot)
        } else if !(0 <= theirs < 6) {
            Some(Rejection::BadIndex)
        } else if self.seat_of(self.opponent_of(pid)).slots[theirs] is None {
            Some(Rejection::EmptySlot)
        } else {
            None
        }
    }

    /// The two chosen cards change places and each slot's version advances.
    /// The turn is still to be ended.
    pub open spec fn after_trade(self, pid: PlayerId, mine: int, theirs: int) -> GameView {
        let i = self.seat_index(pid);
        let me = self.seats[i];
        let opp = self.seats[1 - i];
        self.with_seat(i, me.put(mine, opp.slots[theirs])).with_seat(
            1 - i,
            opp.put(theirs, me.slots[mine]),
        )
    }

    /// Why `pid` may not end the turn, if so. A turn cannot be ended with a
    /// card in hand: the card is to be swapped in or discarded first.
    pub open spec fn end_turn_rejection(self, pid: PlayerId) -> Option<Rejection> {
        if self.active != pid {
            Some(Rejection::NotYourTurn)
        } else if self.stage is Holding {
            Some(Rejection::WrongStage)
        } else {
            None
        }
    }
}

} // verus!
