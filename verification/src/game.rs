//! The executable game engine: the state of one match and the actions that
//! change it. Each action either takes effect as the abstract model says or
//! is refused and leaves the state untouched.

use vstd::prelude::*;
use crate::card::{Card, CardPublic, Rank, card_public, public_of};
use crate::deck::shuffle_cards;
use crate::laws::{
    lemma_deck_swap_keeps_cards, lemma_discard_keeps_cards, lemma_draw_keeps_cards,
    lemma_end_turn_keeps_cards, lemma_match_keeps_cards, lemma_refill_keeps_cards,
    lemma_swap_keeps_cards, lemma_trade_keeps_cards,
};
use crate::model::{
    DrawSource, GameView, PlayerId, Power, Rejection, SLOTS, SeatSpec, TurnStage, ZobboState,
    allows, bump, grants_power,
};

verus! {

/// One player's grid of six face-down cards. A slot that lost its card
/// stays empty; `versions` counts the changes of each slot.
#[derive(Debug)]
pub struct Seat {
    pub slots: Vec<Option<Card>>,
    pub versions: Vec<u64>,
}

/// A seat together with its owner.
#[derive(Debug)]
pub struct SeatEntry {
    pub id: PlayerId,
    pub seat: Seat,
    /// The owner's next turn is forfeited.
    pub skip_next: bool,
}

/// The state of a match.
#[derive(Debug)]
pub struct GameState {
    /// Draw pile; `pop` takes the top card.
    pub deck: Vec<Card>,
    /// Discard pile; the last card is on top.
    pub discard: Vec<Card>,
    /// The two seats, in joining order.
    pub seats: Vec<SeatEntry>,
    pub active: PlayerId,
    pub stage: TurnStage,
    pub zobbo: Option<ZobboState>,
}

impl View for SeatEntry {
    type V = SeatSpec;

    open spec fn view(&self) -> SeatSpec {
        SeatSpec {
            id: self.id,
            slots: self.seat.slots@,
            versions: self.seat.versions@,
            skip_next: self.skip_next,
        }
    }
}

impl View for GameState {
    type V = GameView;

    open spec fn view(&self) -> GameView {
        GameView {
            deck: self.deck@,
            discard: self.discard@,
            seats: Seq::new(self.seats@.len(), |i: int| self.seats@[i]@),
            active: self.active,
            stage: self.stage,
            zobbo: self.zobbo,
        }
    }
}

/// Moves the six top cards of `deck` into a new seat, the top card first.
fn deal_seat(deck: &mut Vec<Card>) -> (seat: Seat)
    requires
        old(deck)@.len() >= 6,
    ensures
        final(deck)@ == old(deck)@.take(old(deck)@.len() - 6),
        seat.slots@ == Seq::new(6, |k: int| Some(old(deck)@[old(deck)@.len() - 1 - k])),
        seat.versions@ == Seq::new(6, |k: int| 0u64),
{
    let mut slots: Vec<Option<Card>> = Vec::with_capacity(6);
    let mut versions: Vec<u64> = Vec::with_capacity(6);
    let ghost start = deck@;
    let mut k: usize = 0;
    while k < 6
        invariant
            k <= 6,
            start.len() >= 6,
            deck@ == start.take(start.len() - k),
            slots@.len() == k,
            versions@.len() == k,
            forall|j: int| 0 <= j < k ==> slots@[j] == Some(start[start.len() - 1 - j]),
            forall|j: int| 0 <= j < k ==> versions@[j] == 0u64,
        decreases 6 - k,
    {
        let c = deck.pop();
        slots.push(c);
        versions.push(0);
        k = k + 1;
    }
    assert(slots@ =~= Seq::new(6, |k: int| Some(start[start.len() - 1 - k])));
    assert(versions@ =~= Seq::new(6, |k: int| 0u64));
    Seat { slots, versions }
}

impl GameState {
    /// The state right after the deal from `deck`: the first player gets the
    /// six top cards, the second the next six, top card first in each
    /// case; nothing is discarded, nobody has drawn and no Zobbo is pending.
    pub open spec fn dealt(
        deck: Seq<Card>,
        first: PlayerId,
        second: PlayerId,
        starting: PlayerId,
    ) -> GameView {
        GameView {
            deck: deck.take(deck.len() - 12),
            discard: Seq::empty(),
            seats: seq![
                SeatSpec {
                    id: first,
                    slots: Seq::new(6, |k: int| Some(deck[deck.len() - 1 - k])),
                    versions: Seq::new(6, |k: int| 0u64),
                    skip_next: false,
                },
                SeatSpec {
                    id: second,
                    slots: Seq::new(6, |k: int| Some(deck[deck.len() - 7 - k])),
                    versions: Seq::new(6, |k: int| 0u64),
                    skip_next: false,
                },
            ],
            active: starting,
            stage: TurnStage::AwaitDraw,
            zobbo: None,
        }
    }

    /// Deals a match from `deck` between two different players, of whom
    /// `starting` moves first. `None` if the deck has fewer than twelve
    /// cards, the players are the same, or `starting` is neither of them.
    pub fn deal(deck: Vec<Card>, first: PlayerId, second: PlayerId, starting: PlayerId) -> (r:
        Option<GameState>)
        ensures
            r is Some <==> deck@.len() >= 12 && first != second && (starting == first || starting
                == second),
            r matches Some(g) ==> g@ == Self::dealt(deck@, first, second, starting) && g@.wf()
                && g@.cards() == deck@.to_multiset(),
    {
        if deck.len() < 12 || first == second || (starting != first && starting != second) {
            return None;
        }
        let mut deck = deck;
        let ghost start = deck@;
        let seat_a = deal_seat(&mut deck);
        let seat_b = deal_seat(&mut deck);
        let mut seats: Vec<SeatEntry> = Vec::with_capacity(2);
        seats.push(SeatEntry { id: first, seat: seat_a, skip_next: false });
        seats.push(SeatEntry { id: second, seat: seat_b, skip_next: false });
        let g = GameState {
            deck,
            discard: Vec::new(),
            seats,
            active: starting,
            stage: TurnStage::AwaitDraw,
            zobbo: None,
        };
        proof {
            let d = Self::dealt(start, first, second, starting);
            assert(g@.seats[0].slots =~= d.seats[0].slots);
            assert(g@.seats[1].slots =~= d.seats[1].slots);
            assert(g@.seats[0] == d.seats[0]);
            assert(g@.seats[1] == d.seats[1]);
            assert(g@.seats =~= d.seats);
            assert(g@.deck =~= d.deck);
            assert(g@ == d);
            crate::laws::lemma_deal_keeps_cards(start, first, second, starting);
        }
        Some(g)
    }

    /// Index of the seat of `pid`, if `pid` plays.
    pub fn seat_index(&self, pid: PlayerId) -> (r: Option<usize>)
        requires
            self@.wf(),
        ensures
            r is Some <==> self@.has_seat(pid),
            r matches Some(i) ==> i == self@.seat_index(pid) && i < 2,
    {
        if self.seats[0].id == pid {
            Some(0)
        } else if self.seats[1].id == pid {
            Some(1)
        } else {
            None
        }
    }

    /// The opponent of `me`, if `me` plays.
    pub fn opponent_of(&self, me: PlayerId) -> (r: Option<PlayerId>)
        requires
            self@.wf(),
        ensures
            r is Some <==> self@.has_seat(me),
            r matches Some(p) ==> p == self@.opponent_of(me) && p != me && self@.has_seat(p),
    {
        match self.seat_index(me) {
            Some(i) => Some(self.seats[1 - i].id),
            None => None,
        }
    }

    /// The player whose turn comes after the active player's.
    pub fn next_player(&self) -> (r: PlayerId)
        requires
            self@.wf(),
        ensures
            r == self@.opponent_of(self@.active),
    {
        if self.seats[0].id == self.active {
            self.seats[1].id
        } else {
            self.seats[0].id
        }
    }
}

impl GameState {
    /// Ends the turn: the turn passes on unless the other player owes a
    /// skipped turn, the stage is reset and a pending Zobbo countdown
    /// advances. A card still in hand goes to the discard pile. Returns
    /// whether this was the last turn, the one whose end brings the
    /// countdown to zero: the hands are then to be revealed.
    pub fn end_turn_common(&mut self) -> (done: bool)
        requires
            old(self)@.wf(),
        ensures
            final(self)@ == old(self)@.end_turn(),
            final(self)@.wf(),
            final(self)@.cards() == old(self)@.cards(),
            done == old(self)@.last_turn(),
    {
        proof {
            lemma_end_turn_keeps_cards(self@);
        }
        let next: usize = if self.seats[0].id == self.active {
            1
        } else {
            0
        };
        if self.seats[next].skip_next {
            self.seats[next].skip_next = false;
        } else {
            self.active = self.seats[next].id;
        }
        match self.stage {
            TurnStage::Holding { card, from } => {
                self.discard.push(card);
            },
            _ => {},
        }
        self.stage = TurnStage::AwaitDraw;
        let mut done = false;
        match self.zobbo {
            Some(z) => {
                let left: u8 = if z.remaining > 0 {
                    z.remaining - 1
                } else {
                    0
                };
                self.zobbo = Some(ZobboState { caller: z.caller, remaining: left });
                done = z.remaining == 1;
            },
            None => {},
        }
        proof {
            assert(self@.seats =~= old(self)@.end_turn().seats);
        }
        done
    }

    /// Why `pid` may not end the turn, if so.
    pub fn end_turn_rejection(&self, pid: PlayerId) -> (r: Option<Rejection>)
        ensures
            r == self@.end_turn_rejection(pid),
    {
        if self.active != pid {
            return Some(Rejection::NotYourTurn);
        }
        match self.stage {
            TurnStage::Holding { card, from } => Some(Rejection::WrongStage),
            _ => None,
        }
    }

    /// Makes the deck ready for a draw: an empty deck is rebuilt from the
    /// discard pile, shuffled, whose top card stays where it is. With a
    /// non-empty deck, or fewer than two discarded cards, nothing happens.
    pub fn ensure_deck(&mut self)
        requires
            old(self)@.wf(),
        ensures
            old(self)@.refills_to(final(self)@),
            final(self)@.wf(),
            final(self)@.cards() == old(self)@.cards(),
    {
        if self.deck.len() == 0 && self.discard.len() > 1 {
            let top = self.discard.pop().unwrap();
            let mut rest: Vec<Card> = Vec::new();
            std::mem::swap(&mut rest, &mut self.discard);
            shuffle_cards(&mut rest);
            self.deck = rest;
            self.discard.push(top);
            proof {
                let before = old(self)@;
                let after = self@;
                assert(after.discard =~= seq![before.discard.last()]);
                assert(after.seats =~= before.seats);
                assert(after == GameView {
                    deck: after.deck,
                    discard: seq![before.discard.last()],
                    ..before
                });
                crate::laws::lemma_refill_keeps_cards(before, after);
            }
        }
    }

    /// Takes the top card of the deck, rebuilding the deck from the discard
    /// pile first where that is needed and possible.
    pub fn draw_from_deck(&mut self) -> (r: Option<Card>)
        requires
            old(self)@.wf(),
        ensures
            r is None <==> old(self)@.deck.len() == 0 && old(self)@.discard.len() <= 1,
            r is None ==> final(self)@ == old(self)@,
            r matches Some(card) ==> exists|mid: GameView|
                #![trigger old(self)@.refills_to(mid)]
                old(self)@.refills_to(mid) && mid.deck.len() > 0 && card == mid.deck.last()
                    && final(self)@ == (GameView { deck: mid.deck.drop_last(), ..mid }),
    {
        self.ensure_deck();
        let ghost mid = self@;
        let r = self.deck.pop();
        proof {
            old(self)@.discard.drop_last().to_multiset_ensures();
            mid.deck.to_multiset_ensures();
            if r is Some {
                assert(self@.seats =~= mid.seats);
                assert(self@ == GameView { deck: mid.deck.drop_last(), ..mid });
            } else {
                assert(self@.seats =~= old(self)@.seats);
                assert(self@.deck =~= old(self)@.deck);
            }
        }
        r
    }
}

/// The version that follows `v`.
fn next_version(v: u64) -> (r: u64)
    ensures
        r == bump(v),
{
    if v == u64::MAX {
        0
    } else {
        v + 1
    }
}

/// Whether discarding `card` grants a power.
pub fn has_power(card: &Card) -> (r: bool)
    ensures
        r == grants_power(*card),
{
    match card.rank {
        Rank::Five | Rank::Six | Rank::Seven | Rank::Eight | Rank::Nine | Rank::Ten | Rank::Jack
        | Rank::Queen => true,
        Rank::King => card.suit.is_red(),
        _ => false,
    }
}

/// Whether `card` is one of those that grant `power`.
pub fn power_allowed(card: &Card, power: Power) -> (r: bool)
    ensures
        r == allows(*card, power),
{
    match power {
        Power::CheckOwn => match card.rank {
            Rank::Five | Rank::Six | Rank::Seven | Rank::Eight => true,
            _ => false,
        },
        Power::CheckOpponent => match card.rank {
            Rank::Nine | Rank::Ten => true,
            _ => false,
        },
        Power::SwapWithDeck => match card.rank {
            Rank::Jack => true,
            _ => false,
        },
        Power::SwapWithOpponent => match card.rank {
            Rank::Queen => true,
            _ => false,
        },
        Power::OpponentSwapWithDeck => match card.rank {
            Rank::King => card.suit.is_red(),
            _ => false,
        },
    }
}

impl GameState {
    /// Whether it is the turn of `pid`.
    pub fn is_active(&self, pid: PlayerId) -> (r: bool)
        ensures
            r == (self@.active == pid),
    {
        self.active == pid
    }

    /// The active player draws the top card of the deck or of the discard
    /// pile and holds it. Returns the card drawn.
    pub fn draw(&mut self, pid: PlayerId, src: DrawSource) -> (r: Result<Card, Rejection>)
        requires
            old(self)@.wf(),
        ensures
            final(self)@.wf(),
            final(self)@.cards() == old(self)@.cards(),
            match r {
                Err(e) => old(self)@.draw_rejection(pid, src) == Some(e) && final(self)@ == old(self)@,
                Ok(card) => old(self)@.draw_rejection(pid, src) is None && final(self)@.stage
                    == (TurnStage::Holding { card, from: src }) && exists|mid: GameView|
                    #![trigger old(self)@.ready_for(src, mid)]
                    old(self)@.ready_for(src, mid) && final(self)@ == mid.after_draw(src),
            },
    {
        if self.active != pid {
            return Err(Rejection::NotYourTurn);
        }
        match self.stage {
            TurnStage::AwaitDraw => {},
            _ => {
                return Err(Rejection::WrongStage);
            },
        }
        let drawn = match src {
            DrawSource::Deck => self.draw_from_deck(),
            DrawSource::Discard => self.discard.pop(),
        };
        match drawn {
            Some(card) => {
                self.stage = TurnStage::Holding { card, from: src };
                proof {
                    let before = old(self)@;
                    match src {
                        DrawSource::Deck => {
                            let mid = choose|mid: GameView|
                                #![trigger before.refills_to(mid)]
                                before.refills_to(mid) && mid.deck.len() > 0 && card
                                    == mid.deck.last() && self@ == (GameView {
                                    deck: mid.deck.drop_last(),
                                    stage: TurnStage::Holding { card, from: src },
                                    ..mid
                                });
                            lemma_refill_keeps_cards(before, mid);
                            lemma_draw_keeps_cards(mid, src);
                            assert(before.ready_for(src, mid));
                            assert(self@ == mid.after_draw(src));
                        },
                        DrawSource::Discard => {
                            assert(self@.seats =~= before.seats);
                            assert(self@ == before.after_draw(src));
                            lemma_draw_keeps_cards(before, src);
                            assert(before.ready_for(src, before));
                        },
                    }
                }
                Ok(card)
            },
            None => {
                proof {
                    assert(self@.seats =~= old(self)@.seats);
                    assert(self@.discard =~= old(self)@.discard);
                }
                Err(Rejection::EmptyPile)
            },
        }
    }

    /// The active player puts the held card into the occupied slot `index`
    /// and the card that lay there is discarded. The turn is then to be
    /// ended with [`Self::end_turn_common`].
    pub fn swap_with_hand(&mut self, pid: PlayerId, index: usize) -> (r: Result<(), Rejection>)
        requires
            old(self)@.wf(),
        ensures
            final(self)@.wf(),
            final(self)@.cards() == old(self)@.cards(),
            match r {
                Err(e) => old(self)@.swap_rejection(pid, index as int) == Some(e) && final(self)@
                    == old(self)@,
                Ok(_) => old(self)@.swap_rejection(pid, index as int) is None && final(self)@
                    == old(self)@.after_swap(pid, index as int),
            },
    {
        if self.active != pid {
            return Err(Rejection::NotYourTurn);
        }
        let held = match self.stage {
            TurnStage::Holding { card, from } => card,
            _ => {
                return Err(Rejection::WrongStage);
            },
        };
        let i: usize = if self.seats[0].id == pid {
            0
        } else {
            1
        };
        if index >= SLOTS {
            return Err(Rejection::BadIndex);
        }
        let replaced = match self.seats[i].seat.slots[index] {
            Some(c) => c,
            None => {
                return Err(Rejection::EmptySlot);
            },
        };
        self.seats[i].seat.slots[index] = Some(held);
        let v = self.seats[i].seat.versions[index];
        self.seats[i].seat.versions[index] = next_version(v);
        self.discard.push(replaced);
        self.stage = TurnStage::AwaitDraw;
        proof {
            let before = old(self)@;
            let next = before.after_swap(pid, index as int);
            assert(self@.seats[i as int] == next.seats[i as int]);
            assert(self@.seats =~= next.seats);
            lemma_swap_keeps_cards(before, pid, index as int);
        }
        Ok(())
    }

    /// The active player discards the held card. Returns whether that opened
    /// the power stage, as a power card drawn from the deck does; if not,
    /// the turn is to be ended with [`Self::end_turn_common`].
    pub fn discard_drawn(&mut self, pid: PlayerId) -> (r: Result<bool, Rejection>)
        requires
            old(self)@.wf(),
        ensures
            final(self)@.wf(),
            final(self)@.cards() == old(self)@.cards(),
            match r {
                Err(e) => old(self)@.discard_rejection(pid) == Some(e) && final(self)@ == old(self)@,
                Ok(power) => old(self)@.discard_rejection(pid) is None && final(self)@ == old(self)@.after_discard() && power == old(self)@.discard_opens_power(),
            },
    {
        if self.active != pid {
            return Err(Rejection::NotYourTurn);
        }
        let (held, from) = match self.stage {
            TurnStage::Holding { card, from } => (card, from),
            _ => {
                return Err(Rejection::WrongStage);
            },
        };
        self.discard.push(held);
        let from_deck = match from {
            DrawSource::Deck => true,
            DrawSource::Discard => false,
        };
        let power = from_deck && has_power(&held);
        if power {
            self.stage = TurnStage::Power { card: held };
        } else {
            self.stage = TurnStage::AwaitDraw;
        }
        proof {
            assert(self@.seats =~= old(self)@.seats);
            lemma_discard_keeps_cards(old(self)@, pid);
        }
        Ok(power)
    }

    /// A player tries to match the top of the discard pile with the card in
    /// the own slot `index`. Cards of equal rank match: the card is
    /// discarded and the slot stays empty. Otherwise the player's next turn
    /// is forfeited. Returns whether the cards matched. The turn goes on.
    pub fn match_top(&mut self, pid: PlayerId, index: usize) -> (r: Result<bool, Rejection>)
        requires
            old(self)@.wf(),
        ensures
            final(self)@.wf(),
            final(self)@.cards() == old(self)@.cards(),
            match r {
                Err(e) => old(self)@.match_rejection(pid, index as int) == Some(e) && final(self)@ == old(self)@,
                Ok(matched) => old(self)@.match_rejection(pid, index as int) is None && final(self)@ == old(self)@.after_match(pid, index as int) && matched == old(self)@.matches_top(pid, index as int),
            },
    {
        match self.stage {
            TurnStage::AwaitDraw => {},
            _ => {
                return Err(Rejection::WrongStage);
            },
        }
        let n = self.discard.len();
        if n == 0 {
            return Err(Rejection::EmptyPile);
        }
        let top_rank = self.discard[n - 1].rank;
        let i = match self.seat_index(pid) {
            Some(i) => i,
            None => {
                return Err(Rejection::UnknownPlayer);
            },
        };
        if index >= SLOTS {
            return Err(Rejection::BadIndex);
        }
        let card = match self.seats[i].seat.slots[index] {
            Some(c) => c,
            None => {
                return Err(Rejection::EmptySlot);
            },
        };
        proof {
            lemma_match_keeps_cards(old(self)@, pid, index as int);
        }
        if card.rank == top_rank {
            self.seats[i].seat.slots[index] = None;
            let v = self.seats[i].seat.versions[index];
            self.seats[i].seat.versions[index] = next_version(v);
            self.discard.push(card);
            proof {
                let before = old(self)@;
                assert(self@.seats[i as int] == before.seats[i as int].put(index as int, None));
                assert(self@.seats =~= before.after_match(pid, index as int).seats);
            }
            Ok(true)
        } else {
            self.seats[i].skip_next = true;
            proof {
                let before = old(self)@;
                assert(self@.seats[i as int] == (SeatSpec {
                    skip_next: true,
                    ..before.seats[i as int]
                }));
                assert(self@.seats =~= before.after_match(pid, index as int).seats);
            }
            Ok(false)
        }
    }

    /// The player who is not active calls Zobbo before the active player
    /// draws: the game will end in two turns. Calling again changes nothing.
    pub fn call_zobbo(&mut self, pid: PlayerId) -> (r: Result<(), Rejection>)
        requires
            old(self)@.wf(),
        ensures
            final(self)@.wf(),
            final(self)@.cards() == old(self)@.cards(),
            match r {
                Err(e) => old(self)@.zobbo_rejection(pid) == Some(e) && final(self)@ == old(self)@,
                Ok(_) => old(self)@.zobbo_rejection(pid) is None && final(self)@ == old(self)@.after_zobbo(pid),
            },
    {
        match self.stage {
            TurnStage::AwaitDraw => {},
            _ => {
                return Err(Rejection::WrongStage);
            },
        }
        if self.active == pid {
            return Err(Rejection::OwnTurn);
        }
        if self.seat_index(pid).is_none() {
            return Err(Rejection::UnknownPlayer);
        }
        if self.zobbo.is_none() {
            self.zobbo = Some(ZobboState { caller: pid, remaining: 2 });
        }
        proof {
            assert(self@.seats =~= old(self)@.seats);
        }
        Ok(())
    }

    /// The checks that every power shares: the caller is active, the turn is
    /// in the power stage and the discarded card grants `power`.
    fn power_gate(&self, pid: PlayerId, power: Power) -> (r: Option<Rejection>)
        requires
            self@.wf(),
        ensures
            r == self@.power_gate(pid, power),
    {
        if self.active != pid {
            return Some(Rejection::NotYourTurn);
        }
        match self.stage {
            TurnStage::Power { card } => {
                if power_allowed(&card, power) {
                    None
                } else {
                    Some(Rejection::WrongPower)
                }
            },
            _ => Some(Rejection::WrongStage),
        }
    }

    /// Looks at slot `index` of the seat at `target`.
    fn peek(&self, pid: PlayerId, power: Power, target: usize, index: usize) -> (r: Result<
        CardPublic,
        Rejection,
    >)
        requires
            self@.wf(),
            target < 2,
        ensures
            match r {
                Err(e) => self@.peek_rejection(
                    pid,
                    power,
                    self@.seats[target as int].id,
                    index as int,
                ) == Some(e),
                Ok(card) => self@.peek_rejection(
                    pid,
                    power,
                    self@.seats[target as int].id,
                    index as int,
                ) is None && card == public_of(self@.seats[target as int].slots[index as int]->0),
            },
    {
        match self.power_gate(pid, power) {
            Some(e) => {
                return Err(e);
            },
            None => {},
        }
        if index >= SLOTS {
            return Err(Rejection::BadIndex);
        }
        match self.seats[target].seat.slots[index] {
            Some(c) => Ok(card_public(&c)),
            None => Err(Rejection::EmptySlot),
        }
    }

    /// Power of the five, six, seven and eight: the active player looks at
    /// the own card in slot `index`. Returns what the player sees; nothing
    /// changes, and the turn is then to be ended.
    pub fn power_check_own(&self, pid: PlayerId, index: usize) -> (r: Result<
        CardPublic,
        Rejection,
    >)
        requires
            self@.wf(),
        ensures
            match r {
                Err(e) => self@.peek_rejection(pid, Power::CheckOwn, pid, index as int) == Some(
                    e,
                ),
                Ok(card) => self@.peek_rejection(pid, Power::CheckOwn, pid, index as int)
                    is None && card == public_of(self@.seat_of(pid).slots[index as int]->0),
            },
    {
        let me: usize = if self.seats[0].id == pid {
            0
        } else {
            1
        };
        if self.active != pid {
            return Err(Rejection::NotYourTurn);
        }
        self.peek(pid, Power::CheckOwn, me, index)
    }

    /// Power of the nine and ten: the active player looks at the opponent's
    /// card in slot `index`. Returns what the player sees; nothing changes,
    /// and the turn is then to be ended.
    pub fn power_check_opp(&self, pid: PlayerId, index: usize) -> (r: Result<
        CardPublic,
        Rejection,
    >)
        requires
            self@.wf(),
        ensures
            match r {
                Err(e) => self@.peek_rejection(
                    pid,
                    Power::CheckOpponent,
                    self@.opponent_of(pid),
                    index as int,
                ) == Some(e),
                Ok(card) => self@.peek_rejection(
                    pid,
                    Power::CheckOpponent,
                    self@.opponent_of(pid),
                    index as int,
                ) is None && card == public_of(
                    self@.seat_of(self@.opponent_of(pid)).slots[index as int]->0,
                ),
            },
    {
        let opp: usize = if self.seats[0].id == pid {
            1
        } else {
            0
        };
        if self.active != pid {
            return Err(Rejection::NotYourTurn);
        }
        self.peek(pid, Power::CheckOpponent, opp, index)
    }

    /// Exchanges the card in slot `index` of the seat at `seat` with the top
    /// card of the deck, which is rebuilt first if need be. An empty slot,
    /// or a deck that cannot be rebuilt, leaves everything in place.
    fn swap_slot_with_deck(&mut self, seat: usize, index: usize)
        requires
            old(self)@.wf(),
            seat < 2,
            index < 6,
        ensures
            final(self)@.wf(),
            final(self)@.cards() == old(self)@.cards(),
            exists|mid: GameView|
                #![trigger old(self)@.ready_for_deck_swap(seat as int, index as int, mid)]
                old(self)@.ready_for_deck_swap(seat as int, index as int, mid) && final(self)@
                    == mid.slot_swapped_with_deck(seat as int, index as int),
    {
        let ghost before = self@;
        match self.seats[seat].seat.slots[index] {
            Some(out) => {
                match self.draw_from_deck() {
                    Some(top) => {
                        let ghost drawn = self@;
                        self.seats[seat].seat.slots[index] = Some(top);
                        let v = self.seats[seat].seat.versions[index];
                        self.seats[seat].seat.versions[index] = next_version(v);
                        self.deck.push(out);
                        proof {
                            let mid = choose|mid: GameView|
                                #![trigger before.refills_to(mid)]
                                before.refills_to(mid) && mid.deck.len() > 0 && top
                                    == mid.deck.last() && drawn == (GameView {
                                    deck: mid.deck.drop_last(),
                                    ..mid
                                });
                            lemma_refill_keeps_cards(before, mid);
                            lemma_deck_swap_keeps_cards(mid, seat as int, index as int);
                            let next = mid.slot_swapped_with_deck(seat as int, index as int);
                            assert(self@.seats[seat as int] == next.seats[seat as int]);
                            assert(self@.seats =~= next.seats);
                            assert(self@ == next);
                            assert(before.ready_for_deck_swap(seat as int, index as int, mid));
                        }
                    },
                    None => {
                        proof {
                            assert(self@ == before.slot_swapped_with_deck(
                                seat as int,
                                index as int,
                            ));
                            assert(before.refills_to(before));
                            assert(before.ready_for_deck_swap(
                                seat as int,
                                index as int,
                                before,
                            ));
                        }
                    },
                }
            },
            None => {
                proof {
                    assert(self@ == before.slot_swapped_with_deck(seat as int, index as int));
                    assert(before.ready_for_deck_swap(seat as int, index as int, before));
                }
            },
        }
    }

    /// The shared course of the two powers that exchange a slot with the
    /// deck.
    fn deck_swap(&mut self, pid: PlayerId, power: Power, seat: usize, index: usize) -> (r: Result<
        (),
        Rejection,
    >)
        requires
            old(self)@.wf(),
            seat < 2,
        ensures
            final(self)@.wf(),
            final(self)@.cards() == old(self)@.cards(),
            match r {
                Err(e) => old(self)@.deck_swap_rejection(pid, power, index as int) == Some(e)
                    && final(self)@ == old(self)@,
                Ok(_) => old(self)@.deck_swap_rejection(pid, power, index as int) is None
                    && exists|mid: GameView|
                    #![trigger old(self)@.ready_for_deck_swap(seat as int, index as int, mid)]
                    old(self)@.ready_for_deck_swap(seat as int, index as int, mid) && final(self)@ == mid.slot_swapped_with_deck(seat as int, index as int),
            },
    {
        match self.power_gate(pid, power) {
            Some(e) => {
                return Err(e);
            },
            None => {},
        }
        if index >= SLOTS {
            return Err(Rejection::BadIndex);
        }
        self.swap_slot_with_deck(seat, index);
        Ok(())
    }

    /// Power of the jack: the active player exchanges the own card in slot
    /// `index` with the top card of the deck, unseen. With an empty slot or
    /// no deck nothing moves. The turn is then to be ended either way.
    pub fn power_swap_with_deck(&mut self, pid: PlayerId, index: usize) -> (r: Result<
        (),
        Rejection,
    >)
        requires
            old(self)@.wf(),
        ensures
            final(self)@.wf(),
            final(self)@.cards() == old(self)@.cards(),
            match r {
                Err(e) => old(self)@.deck_swap_rejection(pid, Power::SwapWithDeck, index as int)
                    == Some(e) && final(self)@ == old(self)@,
                Ok(_) => old(self)@.deck_swap_rejection(pid, Power::SwapWithDeck, index as int)
                    is None && exists|mid: GameView|
                    #![trigger old(self)@.ready_for_deck_swap(old(self)@.seat_index(pid), index as int, mid)]
                    old(self)@.ready_for_deck_swap(old(self)@.seat_index(pid), index as int, mid)
                        && final(self)@ == mid.slot_swapped_with_deck(
                        old(self)@.seat_index(pid),
                        index as int,
                    ),
            },
    {
        let me: usize = if self.seats[0].id == pid {
            0
        } else {
            1
        };
        let r = self.deck_swap(pid, Power::SwapWithDeck, me, index);
        proof {
            if r is Ok {
                let before = old(self)@;
                let mid = choose|mid: GameView|
                    #![trigger before.ready_for_deck_swap(me as int, index as int, mid)]
                    before.ready_for_deck_swap(me as int, index as int, mid) && self@
                        == mid.slot_swapped_with_deck(me as int, index as int);
                assert(before.ready_for_deck_swap(before.seat_index(pid), index as int, mid));
            }
        }
        r
    }

    /// Power of the red king: the active player exchanges the opponent's
    /// card in slot `opp_index` with the top card of the deck, unseen. With
    /// an empty slot or no deck nothing moves. The turn is then to be ended
    /// either way.
    pub fn power_opp_swap_with_deck(&mut self, pid: PlayerId, opp_index: usize) -> (r: Result<
        (),
        Rejection,
    >)
        requires
            old(self)@.wf(),
        ensures
            final(self)@.wf(),
            final(self)@.cards() == old(self)@.cards(),
            match r {
                Err(e) => old(self)@.deck_swap_rejection(
                    pid,
                    Power::OpponentSwapWithDeck,
                    opp_index as int,
                ) == Some(e) && final(self)@ == old(self)@,
                Ok(_) => old(self)@.deck_swap_rejection(
                    pid,
                    Power::OpponentSwapWithDeck,
                    opp_index as int,
                ) is None && exists|mid: GameView|
                    #![trigger old(self)@.ready_for_deck_swap(1 - old(self)@.seat_index(pid), opp_index as int, mid)]
                    old(self)@.ready_for_deck_swap(
                        1 - old(self)@.seat_index(pid),
                        opp_index as int,
                        mid,
                    ) && final(self)@ == mid.slot_swapped_with_deck(
                        1 - old(self)@.seat_index(pid),
                        opp_index as int,
                    ),
            },
    {
        let opp: usize = if self.seats[0].id == pid {
            1
        } else {
            0
        };
        let r = self.deck_swap(pid, Power::OpponentSwapWithDeck, opp, opp_index);
        proof {
            if r is Ok {
                let before = old(self)@;
                let mid = choose|mid: GameView|
                    #![trigger before.ready_for_deck_swap(opp as int, opp_index as int, mid)]
                    before.ready_for_deck_swap(opp as int, opp_index as int, mid) && self@
                        == mid.slot_swapped_with_deck(opp as int, opp_index as int);
                assert(before.ready_for_deck_swap(
                    1 - before.seat_index(pid),
                    opp_index as int,
                    mid,
                ));
            }
        }
        r
    }

    /// Power of the queen: the active player exchanges the own card in slot
    /// `my_index` with the opponent's card in slot `opp_index`, both
    /// unseen. If either slot is out of range or empty the action is
    /// refused and both seats stay as they are. The turn is then to be
    /// ended.
    pub fn power_swap_with_opp(&mut self, pid: PlayerId, my_index: usize, opp_index: usize) -> (r:
        Result<(), Rejection>)
        requires
            old(self)@.wf(),
        ensures
            final(self)@.wf(),
            final(self)@.cards() == old(self)@.cards(),
            match r {
                Err(e) => old(self)@.trade_rejection(pid, my_index as int, opp_index as int)
                    == Some(e) && final(self)@ == old(self)@,
                Ok(_) => old(self)@.trade_rejection(pid, my_index as int, opp_index as int)
                    is None && final(self)@ == old(self)@.after_trade(
                    pid,
                    my_index as int,
                    opp_index as int,
                ),
            },
    {
        match self.power_gate(pid, Power::SwapWithOpponent) {
            Some(e) => {
                return Err(e);
            },
            None => {},
        }
        let me: usize = if self.seats[0].id == pid {
            0
        } else {
            1
        };
        let opp: usize = 1 - me;
        if my_index >= SLOTS {
            return Err(Rejection::BadIndex);
        }
        let my_card = match self.seats[me].seat.slots[my_index] {
            Some(c) => c,
            None => {
                return Err(Rejection::EmptySlot);
            },
        };
        if opp_index >= SLOTS {
            return Err(Rejection::BadIndex);
        }
        let opp_card = match self.seats[opp].seat.slots[opp_index] {
            Some(c) => c,
            None => {
                return Err(Rejection::EmptySlot);
            },
        };
        self.seats[me].seat.slots[my_index] = Some(opp_card);
        let v = self.seats[me].seat.versions[my_index];
        self.seats[me].seat.versions[my_index] = next_version(v);
        self.seats[opp].seat.slots[opp_index] = Some(my_card);
        let w = self.seats[opp].seat.versions[opp_index];
        self.seats[opp].seat.versions[opp_index] = next_version(w);
        proof {
            let before = old(self)@;
            let next = before.after_trade(pid, my_index as int, opp_index as int);
            assert(self@.seats[me as int] == next.seats[me as int]);
            assert(self@.seats[opp as int] == next.seats[opp as int]);
            assert(self@.seats =~= next.seats);
            assert(self@ == next);
            lemma_trade_keeps_cards(before, pid, my_index as int, opp_index as int);
        }
        Ok(())
    }
}

impl Seat {
    /// Whether the seat has its six slots and six versions.
    pub fn is_valid(&self) -> (r: bool)
        ensures
            r == (self.slots@.len() == 6 && self.versions@.len() == 6),
    {
        self.slots.len() == SLOTS && self.versions.len() == SLOTS
    }
}

impl GameState {
    /// Whether the state is valid, as every state is that was dealt by
    /// [`Self::deal`] and changed by the actions of this type alone.
    pub fn is_valid(&self) -> (r: bool)
        ensures
            r == self@.wf(),
    {
        if self.seats.len() != 2 {
            return false;
        }
        if !self.seats[0].seat.is_valid() || !self.seats[1].seat.is_valid() {
            return false;
        }
        let a = self.seats[0].id;
        let b = self.seats[1].id;
        if a == b || (self.active != a && self.active != b) {
            return false;
        }
        match self.zobbo {
            Some(z) => {
                if z.caller != a && z.caller != b {
                    return false;
                }
            },
            None => {},
        }
        match self.stage {
            TurnStage::Power { card } => {
                let n = self.discard.len();
                n > 0 && self.discard[n - 1] == card
            },
            _ => true,
        }
    }
}

} // verus!
