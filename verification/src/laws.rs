//! Laws of the game, proved about the abstract model.

use vstd::prelude::*;
use vstd::multiset::Multiset;
use crate::card::Card;
use crate::game::GameState;
use crate::message::{ClientToServer, Sent};
use crate::room::RoomView;
use crate::session::handles;
use crate::deck::{full_deck, lemma_full_deck_counts};
use crate::model::{
    DrawSource, GameView, PlayerId, Power, Rejection, SeatSpec, TurnStage, ZobboState, allows,
    held_count, occupied, seat_cards, seat_count, slot_cards, slot_count,
};

verus! {

/// Counting in a sum of multisets, and in the smallest multisets.
broadcast group group_counting {
    vstd::multiset::axiom_multiset_empty,
    vstd::multiset::axiom_multiset_singleton,
    vstd::multiset::axiom_multiset_singleton_different,
    vstd::multiset::axiom_multiset_add,
}

/// Two multisets that agree on the count of every card are the same.
proof fn lemma_same_counts(a: Multiset<Card>, b: Multiset<Card>)
    requires
        forall|c: Card| a.count(c) == b.count(c),
    ensures
        a == b,
{
    vstd::multiset::axiom_multiset_ext_equal(a, b);
    assert(a =~= b);
}

/// A card put on a pile occurs once more in it; every other card as before.
proof fn lemma_push_count(pile: Seq<Card>, top: Card, c: Card)
    ensures
        pile.push(top).to_multiset().count(c) == pile.to_multiset().count(c) + if top == c {
            1nat
        } else {
            0nat
        },
{
    broadcast use group_counting;

    vstd::seq_lib::to_multiset_build(pile, top);
}

/// Taking the top card off a pile is the reverse of putting it there.
proof fn lemma_pop_count(pile: Seq<Card>, c: Card)
    requires
        pile.len() > 0,
    ensures
        pile.to_multiset().count(c) == pile.drop_last().to_multiset().count(c) + if pile.last()
            == c {
            1nat
        } else {
            0nat
        },
{
    assert(pile =~= pile.drop_last().push(pile.last()));
    lemma_push_count(pile.drop_last(), pile.last(), c);
}

/// An empty pile holds no card.
proof fn lemma_empty_count(pile: Seq<Card>, c: Card)
    requires
        pile.len() == 0,
    ensures
        pile.to_multiset().count(c) == 0,
{
    broadcast use group_counting;

    pile.to_multiset_ensures();
    assert(!pile.contains(c));
}

/// The multiset of a seat's cards counts as `seat_count` does.
proof fn lemma_seat_count(slots: Seq<Option<Card>>, c: Card)
    ensures
        seat_cards(slots).count(c) == seat_count(slots, c),
        slot_cards(slots[0]).count(c) == slot_count(slots[0], c),
{
    broadcast use group_counting;

    reveal(seat_count);

}

/// The multiset of all cards counts as `copies` does.
pub proof fn lemma_copies(g: GameView, c: Card)
    ensures
        g.cards().count(c) == g.copies(c),
{
    broadcast use group_counting;

    lemma_seat_count(g.seats[0].slots, c);
    lemma_seat_count(g.seats[1].slots, c);
}

/// Two states in which every card occurs equally often hold the same cards.
proof fn lemma_same_copies(a: GameView, b: GameView)
    requires
        forall|c: Card| a.copies(c) == b.copies(c),
    ensures
        a.cards() == b.cards(),
{
    assert forall|c: Card| a.cards().count(c) == b.cards().count(c) by {
        lemma_copies(a, c);
        lemma_copies(b, c);
    }
    lemma_same_counts(a.cards(), b.cards());
}

/// Replacing the content of one slot exchanges, among the cards of the
/// seat, what the slot held for what it holds now.
proof fn lemma_put_count(seat: SeatSpec, i: int, card: Option<Card>, c: Card)
    requires
        seat.wf(),
        0 <= i < 6,
    ensures
        seat.put(i, card).wf(),
        seat_count(seat.put(i, card).slots, c) + slot_count(seat.slots[i], c) == seat_count(
            seat.slots,
            c,
        ) + slot_count(card, c),
{
    reveal(seat_count);
}

/// Taking one more card from the front of a sequence adds that card to the
/// cards taken.
proof fn lemma_take_next(s: Seq<Card>, n: int, c: Card)
    requires
        0 <= n < s.len(),
    ensures
        s.take(n + 1).to_multiset().count(c) == s.take(n).to_multiset().count(c) + if s[n] == c {
            1nat
        } else {
            0nat
        },
{
    assert(s.take(n + 1) =~= s.take(n).push(s[n]));
    lemma_push_count(s.take(n), s[n], c);
}

/// The six cards below position `n` of a pile, dealt top card first.
spec fn six_from(pile: Seq<Card>, n: int) -> Seq<Option<Card>> {
    Seq::new(6, |k: int| Some(pile[n - 1 - k]))
}

/// Dealing six cards takes them from the pile and lays them into the slots.
proof fn lemma_deal_six(pile: Seq<Card>, n: int, c: Card)
    requires
        6 <= n <= pile.len(),
    ensures
        pile.take(n).to_multiset().count(c) == pile.take(n - 6).to_multiset().count(c)
            + seat_count(six_from(pile, n), c),
{
    reveal(seat_count);
    let slots = six_from(pile, n);
    assert(slots[0] == Some(pile[n - 1]) && slots[1] == Some(pile[n - 2]) && slots[2] == Some(
        pile[n - 3],
    ));
    assert(slots[3] == Some(pile[n - 4]) && slots[4] == Some(pile[n - 5]) && slots[5] == Some(
        pile[n - 6],
    ));
    lemma_take_next(pile, n - 1, c);
    lemma_take_next(pile, n - 2, c);
    lemma_take_next(pile, n - 3, c);
    lemma_take_next(pile, n - 4, c);
    lemma_take_next(pile, n - 5, c);
    lemma_take_next(pile, n - 6, c);
}

/// Dealing moves cards from the deck to the seats and loses none: the cards
/// of the dealt match are those of the deck it was dealt from.
pub proof fn lemma_deal_keeps_cards(
    deck: Seq<Card>,
    first: PlayerId,
    second: PlayerId,
    starting: PlayerId,
)
    requires
        deck.len() >= 12,
    ensures
        GameState::dealt(deck, first, second, starting).cards() == deck.to_multiset(),
{
    let g = GameState::dealt(deck, first, second, starting);
    let n = deck.len() as int;
    assert(deck.take(n) =~= deck);
    assert(g.seats[0].slots =~= six_from(deck, n));
    assert(g.seats[1].slots =~= six_from(deck, n - 6));
    assert forall|c: Card| g.cards().count(c) == deck.to_multiset().count(c) by {
        lemma_copies(g, c);
        lemma_empty_count(g.discard, c);
        lemma_deal_six(deck, n, c);
        lemma_deal_six(deck, n - 6, c);
    }
    lemma_same_counts(g.cards(), deck.to_multiset());
}

/// Rebuilding the deck from the discard pile moves cards between the two
/// piles and loses none.
pub proof fn lemma_refill_keeps_cards(g: GameView, next: GameView)
    requires
        g.wf(),
        g.refills_to(next),
    ensures
        next.wf(),
        next.cards() == g.cards(),
{
    if g.needs_refill() {
        assert forall|c: Card| next.copies(c) == g.copies(c) by {
            lemma_pop_count(g.discard, c);
            lemma_push_count(Seq::<Card>::empty(), g.discard.last(), c);
            assert(seq![g.discard.last()] =~= Seq::<Card>::empty().push(g.discard.last()));
            lemma_empty_count(Seq::<Card>::empty(), c);
            lemma_empty_count(g.deck, c);
        }
        lemma_same_copies(next, g);
    }
}

/// Ending a turn moves no card, but for one still in hand, which goes to
/// the discard pile.
pub proof fn lemma_end_turn_keeps_cards(g: GameView)
    requires
        g.wf(),
    ensures
        g.end_turn().wf(),
        g.end_turn().cards() == g.cards(),
{
    assert forall|c: Card| g.end_turn().copies(c) == g.copies(c) by {
        match g.stage {
            TurnStage::Holding { card, from } => {
                lemma_push_count(g.discard, card, c);
            },
            _ => {},
        }
    }
    lemma_same_copies(g.end_turn(), g);
}

/// Drawing moves the top card of a pile to the hand.
pub proof fn lemma_draw_keeps_cards(g: GameView, src: DrawSource)
    requires
        g.wf(),
        g.stage == TurnStage::AwaitDraw,
        src == DrawSource::Deck ==> g.deck.len() > 0,
        src == DrawSource::Discard ==> g.discard.len() > 0,
    ensures
        g.after_draw(src).wf(),
        g.after_draw(src).cards() == g.cards(),
{
    assert forall|c: Card| g.after_draw(src).copies(c) == g.copies(c) by {
        match src {
            DrawSource::Deck => lemma_pop_count(g.deck, c),
            DrawSource::Discard => lemma_pop_count(g.discard, c),
        }
    }
    lemma_same_copies(g.after_draw(src), g);
}

/// Swapping the held card into a slot sends the slot's card to the discard
/// pile.
pub proof fn lemma_swap_keeps_cards(g: GameView, pid: PlayerId, index: int)
    requires
        g.wf(),
        g.swap_rejection(pid, index) is None,
    ensures
        g.after_swap(pid, index).wf(),
        g.after_swap(pid, index).cards() == g.cards(),
{
    let i = g.seat_index(pid);
    let seat = g.seats[i];
    let held = g.stage->Holding_card;
    let replaced = seat.slots[index]->0;
    lemma_put_count(seat, index, Some(held), held);
    assert forall|c: Card| g.after_swap(pid, index).copies(c) == g.copies(c) by {
        lemma_put_count(seat, index, Some(held), c);
        lemma_push_count(g.discard, replaced, c);
    }
    lemma_same_copies(g.after_swap(pid, index), g);
}

/// Discarding the held card moves it from the hand to the discard pile.
pub proof fn lemma_discard_keeps_cards(g: GameView, pid: PlayerId)
    requires
        g.wf(),
        g.discard_rejection(pid) is None,
    ensures
        g.after_discard().wf(),
        g.after_discard().cards() == g.cards(),
{
    let card = g.stage->Holding_card;
    assert forall|c: Card| g.after_discard().copies(c) == g.copies(c) by {
        lemma_push_count(g.discard, card, c);
    }
    lemma_same_copies(g.after_discard(), g);
}

/// A match attempt moves at most one card, from a slot to the discard pile.
pub proof fn lemma_match_keeps_cards(g: GameView, pid: PlayerId, index: int)
    requires
        g.wf(),
        g.match_rejection(pid, index) is None,
    ensures
        g.after_match(pid, index).wf(),
        g.after_match(pid, index).cards() == g.cards(),
{
    let i = g.seat_index(pid);
    let seat = g.seats[i];
    assert forall|c: Card| g.after_match(pid, index).copies(c) == g.copies(c) by {
        if g.matches_top(pid, index) {
            lemma_put_count(seat, index, None, c);
            lemma_push_count(g.discard, seat.slots[index]->0, c);
        }
    }
    lemma_same_copies(g.after_match(pid, index), g);
}

/// Calling Zobbo moves no card.
pub proof fn lemma_zobbo_keeps_cards(g: GameView, pid: PlayerId)
    requires
        g.wf(),
        g.zobbo_rejection(pid) is None,
    ensures
        g.after_zobbo(pid).wf(),
        g.after_zobbo(pid).cards() == g.cards(),
{
}

/// Exchanging a slot with the deck puts the slot's card on the deck and the
/// deck's top card into the slot.
pub proof fn lemma_deck_swap_keeps_cards(g: GameView, seat: int, index: int)
    requires
        g.wf(),
        0 <= seat < 2,
        0 <= index < 6,
    ensures
        g.slot_swapped_with_deck(seat, index).wf(),
        g.slot_swapped_with_deck(seat, index).cards() == g.cards(),
        g.slot_swapped_with_deck(seat, index).stage == g.stage,
{
    let s = g.seats[seat];
    let next = g.slot_swapped_with_deck(seat, index);
    if g.deck.len() > 0 && s.slots[index] is Some {
        let top = g.deck.last();
        let rest = g.deck.drop_last();
        lemma_put_count(s, index, Some(top), top);
        assert forall|c: Card| next.copies(c) == g.copies(c) by {
            lemma_put_count(s, index, Some(top), c);
            lemma_pop_count(g.deck, c);
            lemma_push_count(rest, s.slots[index]->0, c);
        }
        lemma_same_copies(next, g);
    }
}

/// Trading a card with the opponent exchanges the contents of two slots.
pub proof fn lemma_trade_keeps_cards(g: GameView, pid: PlayerId, mine: int, theirs: int)
    requires
        g.wf(),
        g.trade_rejection(pid, mine, theirs) is None,
    ensures
        g.after_trade(pid, mine, theirs).wf(),
        g.after_trade(pid, mine, theirs).cards() == g.cards(),
{
    let i = g.seat_index(pid);
    let me = g.seats[i];
    let opp = g.seats[1 - i];
    let next = g.after_trade(pid, mine, theirs);
    lemma_put_count(me, mine, opp.slots[theirs], me.slots[mine]->0);
    lemma_put_count(opp, theirs, me.slots[mine], me.slots[mine]->0);
    assert(next.wf());
    assert forall|c: Card| next.copies(c) == g.copies(c) by {
        lemma_put_count(me, mine, opp.slots[theirs], c);
        lemma_put_count(opp, theirs, me.slots[mine], c);
    }
    lemma_same_copies(next, g);
}

/// The number of cards in the slots of a seat is the number of its occupied
/// slots.
proof fn lemma_seat_len(slots: Seq<Option<Card>>)
    ensures
        seat_cards(slots).len() == occupied(slots),
{
    broadcast use
        vstd::multiset::axiom_len_empty,
        vstd::multiset::axiom_len_singleton,
        vstd::multiset::axiom_len_add,
    ;

}

/// Card conservation. In a valid match that holds the cards of a full deck,
/// every one of the 52 cards is in exactly one place: a pile, a slot or the
/// hand. So while no card is in hand the piles and the occupied slots hold
/// 52 cards together, and 51 while one is.
pub proof fn lemma_card_conservation(g: GameView)
    requires
        g.wf(),
        g.cards() == full_deck(),
    ensures
        forall|c: Card| #[trigger] g.copies(c) == 1,
        !(g.stage is Holding) ==> g.cards_on_table() == 52,
        g.stage is Holding ==> g.cards_on_table() == 51,
{
    assert forall|c: Card| #[trigger] g.copies(c) == 1 by {
        lemma_copies(g, c);
        lemma_full_deck_counts(c);
    }
    lemma_full_deck_counts(Card { rank: crate::card::Rank::Ace, suit: crate::card::Suit::Clubs });
    lemma_seat_len(g.seats[0].slots);
    lemma_seat_len(g.seats[1].slots);
    g.deck.to_multiset_ensures();
    g.discard.to_multiset_ensures();
    assert(g.cards().len() == g.cards_on_table() + if g.stage is Holding {
        1nat
    } else {
        0nat
    }) by {
        broadcast use
            vstd::multiset::axiom_len_empty,
            vstd::multiset::axiom_len_singleton,
            vstd::multiset::axiom_len_add,
        ;

    }
}

/// Turn exclusivity. Whoever is not the active player can neither draw, nor
/// swap or discard a held card, nor use a power, nor end the turn; the
/// active player cannot call Zobbo.
pub proof fn lemma_turn_exclusivity(
    g: GameView,
    p: PlayerId,
    src: DrawSource,
    power: Power,
    target: PlayerId,
    index: int,
    other: int,
)
    ensures
        p != g.active ==> {
            &&& g.draw_rejection(p, src) == Some(Rejection::NotYourTurn)
            &&& g.swap_rejection(p, index) == Some(Rejection::NotYourTurn)
            &&& g.discard_rejection(p) == Some(Rejection::NotYourTurn)
            &&& g.power_gate(p, power) == Some(Rejection::NotYourTurn)
            &&& g.peek_rejection(p, power, target, index) == Some(Rejection::NotYourTurn)
            &&& g.deck_swap_rejection(p, power, index) == Some(Rejection::NotYourTurn)
            &&& g.trade_rejection(p, index, other) == Some(Rejection::NotYourTurn)
            &&& g.end_turn_rejection(p) == Some(Rejection::NotYourTurn)
        },
        p == g.active ==> g.zobbo_rejection(p) is Some,
{
}

/// Stage gating. A power is only ever accepted in the power stage, and only
/// if the discarded card is one of those that grant it.
pub proof fn lemma_stage_gating(
    g: GameView,
    p: PlayerId,
    power: Power,
    target: PlayerId,
    index: int,
    other: int,
)
    ensures
        g.peek_rejection(p, power, target, index) is None ==> g.stage is Power && allows(
            g.stage->Power_card,
            power,
        ),
        g.deck_swap_rejection(p, power, index) is None ==> g.stage is Power && allows(
            g.stage->Power_card,
            power,
        ),
        g.trade_rejection(p, index, other) is None ==> g.stage is Power && allows(
            g.stage->Power_card,
            Power::SwapWithOpponent,
        ),
{
}

/// Skip semantics. If the player whose turn would come owes a skipped turn,
/// the active player stays and the debt is cleared; otherwise the turn
/// passes to the other player. Nobody else's debt changes.
pub proof fn lemma_skip_semantics(g: GameView)
    requires
        g.wf(),
    ensures
        ({
            let x = g.opponent_of(g.active);
            let next = g.end_turn();
            &&& g.skip_next().contains(x) ==> next.active == g.active && !next.skip_next().contains(
                x,
            )
            &&& !g.skip_next().contains(x) ==> next.active == x && next.skip_next()
                == g.skip_next()
            &&& next.skip_next().contains(g.active) == g.skip_next().contains(g.active)
            &&& next.stage == TurnStage::AwaitDraw
        }),
{
    let x = g.opponent_of(g.active);
    let next = g.end_turn();
    if !g.skip_next().contains(x) {
        assert(next.skip_next() =~= g.skip_next());
    }
}

/// Zobbo termination. After Zobbo is called, the first end of a turn leaves
/// one turn to play and reveals nothing; the second brings the countdown
/// to zero and is the one at which the hands are revealed; and no later
/// end of a turn reveals them again.
pub proof fn lemma_zobbo_countdown(g: GameView, caller: PlayerId)
    requires
        g.wf(),
        g.zobbo == Some(ZobboState { caller, remaining: 2 }),
    ensures
        !g.last_turn(),
        g.end_turn().zobbo == Some(ZobboState { caller, remaining: 1 }),
        g.end_turn().last_turn(),
        g.end_turn().end_turn().zobbo == Some(ZobboState { caller, remaining: 0 }),
        g.end_turn().end_turn().finished(),
        !g.end_turn().end_turn().last_turn(),
{
}

/// The hands are revealed once. When the countdown has run out, no turn is
/// the last one any more, whatever the players do: every action and every
/// end of a turn leaves the countdown at zero.
pub proof fn lemma_reveal_once(
    g: GameView,
    p: PlayerId,
    src: DrawSource,
    seat: int,
    index: int,
    other: int,
)
    requires
        g.finished(),
    ensures
        !g.last_turn(),
        g.end_turn().finished(),
        g.after_draw(src).finished(),
        g.after_swap(p, index).finished(),
        g.after_discard().finished(),
        g.after_match(p, index).finished(),
        g.after_zobbo(p).finished(),
        g.slot_swapped_with_deck(seat, index).finished(),
        g.after_trade(p, index, other).finished(),
        forall|next: GameView| g.refills_to(next) ==> next.finished(),
{
}

/// A pending Zobbo is never withdrawn: drawing, swapping, discarding,
/// matching, calling again and the powers all leave it as it is, and the
/// end of a turn only shortens the countdown.
pub proof fn lemma_zobbo_stays(
    g: GameView,
    p: PlayerId,
    src: DrawSource,
    seat: int,
    index: int,
    other: int,
)
    requires
        g.zobbo is Some,
    ensures
        g.after_draw(src).zobbo == g.zobbo,
        g.after_swap(p, index).zobbo == g.zobbo,
        g.after_discard().zobbo == g.zobbo,
        g.after_match(p, index).zobbo == g.zobbo,
        g.after_zobbo(p) == g,
        g.slot_swapped_with_deck(seat, index).zobbo == g.zobbo,
        g.after_trade(p, index, other).zobbo == g.zobbo,
        g.end_turn().zobbo is Some,
        g.end_turn().zobbo->0.caller == g.zobbo->0.caller,
        g.end_turn().zobbo->0.remaining <= g.zobbo->0.remaining,
{
}

/// A match dealt to two different players, one of whom starts, is valid.
pub proof fn lemma_deal_is_valid(
    deck: Seq<Card>,
    first: PlayerId,
    second: PlayerId,
    starting: PlayerId,
)
    requires
        deck.len() >= 12,
        first != second,
        starting == first || starting == second,
    ensures
        GameState::dealt(deck, first, second, starting).wf(),
{
}

/// The turn's end after a move that lost no card loses none either.
proof fn lemma_move_then_end(g: GameView, after: GameView)
    requires
        after.wf(),
        after.cards() == g.cards(),
    ensures
        after.end_turn().wf(),
        after.end_turn().cards() == g.cards(),
{
    lemma_end_turn_keeps_cards(after);
}

/// Card conservation, for every state a room can reach. Whatever message a
/// room handles, the match holds the same cards afterwards as before, and
/// a match that begins holds the cards of a full deck.
pub proof fn lemma_message_keeps_cards(
    room: RoomView,
    pid: PlayerId,
    msg: ClientToServer,
    next: RoomView,
    r: Result<(), Rejection>,
    out: Seq<Sent>,
)
    requires
        room.wf(),
        handles(room, pid, msg, next, r, out),
    ensures
        next.wf(),
        room.game is Some ==> next.game is Some && next.game->0.cards() == room.game->0.cards(),
        room.game is None && next.game is Some ==> next.game->0.cards() == full_deck(),
{
    let g = room.game->0;
    match msg {
        ClientToServer::Ping => {},
        ClientToServer::Ready => {
            let (coin, deck) = choose|coin: bool, deck: Seq<Card>|
                #![trigger room.readies(pid, coin, deck, next, out)]
                deck.to_multiset() == full_deck() && room.readies(pid, coin, deck, next, out);
            let ready = room.readied(pid);
            assert(ready.wf());
            if ready.all_set() && deck.len() >= 12 {
                let starting = ready.starter(coin);
                lemma_deal_is_valid(deck, ready.players[0].id, ready.players[1].id, starting);
                lemma_deal_keeps_cards(deck, ready.players[0].id, ready.players[1].id, starting);
            }
        },
        ClientToServer::DrawDeck => {
            lemma_drawn(room, pid, DrawSource::Deck, next, r, out);
        },
        ClientToServer::DrawDiscard => {
            lemma_drawn(room, pid, DrawSource::Discard, next, r, out);
        },
        ClientToServer::SwapWithHand { index } => {
            if r is Ok {
                lemma_swap_keeps_cards(g, pid, index as int);
                lemma_move_then_end(g, g.after_swap(pid, index as int));
            }
        },
        ClientToServer::DiscardDrawn => {
            if r is Ok {
                lemma_discard_keeps_cards(g, pid);
                if !g.discard_opens_power() {
                    lemma_move_then_end(g, g.after_discard());
                }
            }
        },
        ClientToServer::MatchTop { index } => {
            if r is Ok {
                lemma_match_keeps_cards(g, pid, index as int);
            }
        },
        ClientToServer::CallZobbo => {
            if r is Ok {
                lemma_zobbo_keeps_cards(g, pid);
            }
        },
        ClientToServer::PowerCheckOwn { index } => {
            if r is Ok {
                lemma_move_then_end(g, g);
            }
        },
        ClientToServer::PowerCheckOpp { index } => {
            if r is Ok {
                lemma_move_then_end(g, g);
            }
        },
        ClientToServer::PowerSwapWithDeck { index } => {
            lemma_swapped_with_deck(
                room,
                pid,
                Power::SwapWithDeck,
                g.seat_index(pid),
                index as int,
                next,
                r,
                out,
            );
        },
        ClientToServer::PowerSwapWithOpp { my_index, opp_index } => {
            if r is Ok {
                lemma_trade_keeps_cards(g, pid, my_index as int, opp_index as int);
                lemma_move_then_end(g, g.after_trade(pid, my_index as int, opp_index as int));
            }
        },
        ClientToServer::PowerOppSwapWithDeck { opp_index } => {
            lemma_swapped_with_deck(
                room,
                pid,
                Power::OpponentSwapWithDeck,
                1 - g.seat_index(pid),
                opp_index as int,
                next,
                r,
                out,
            );
        },
        ClientToServer::EndTurn => {
            if r is Ok {
                lemma_move_then_end(g, g);
            }
        },
    }
}

/// A draw, with the deck rebuilt for it if need be, moves no card out of
/// the match.
proof fn lemma_drawn(
    room: RoomView,
    pid: PlayerId,
    src: DrawSource,
    next: RoomView,
    r: Result<(), Rejection>,
    out: Seq<Sent>,
)
    requires
        room.wf(),
        room.draws(pid, src, next, r, out),
    ensures
        next.wf(),
        room.game is Some ==> next.game is Some && next.game->0.cards() == room.game->0.cards(),
        room.game is None ==> next.game is None,
{
    let g = room.game->0;
    if r is Ok {
        let mid = choose|mid: GameView|
            #![trigger g.ready_for(src, mid)]
            g.ready_for(src, mid) && next == room.with_game(mid.after_draw(src));
        if src == DrawSource::Deck {
            lemma_refill_keeps_cards(g, mid);
            if g.needs_refill() {
                g.discard.drop_last().to_multiset_ensures();
                mid.deck.to_multiset_ensures();
            }
        }
        lemma_draw_keeps_cards(mid, src);
    }
}

/// An exchange of a slot with the deck, with the deck rebuilt for it if
/// need be, and the turn's end after it move no card out of the match.
proof fn lemma_swapped_with_deck(
    room: RoomView,
    pid: PlayerId,
    power: Power,
    seat: int,
    index: int,
    next: RoomView,
    r: Result<(), Rejection>,
    out: Seq<Sent>,
)
    requires
        room.wf(),
        0 <= seat < 2,
        room.swaps_with_deck(pid, power, seat, index, next, r, out),
    ensures
        next.wf(),
        room.game is Some ==> next.game is Some && next.game->0.cards() == room.game->0.cards(),
        room.game is None ==> next.game is None,
{
    let g = room.game->0;
    if r is Ok {
        let mid = choose|mid: GameView|
            #![trigger g.ready_for_deck_swap(seat, index, mid)]
            g.ready_for_deck_swap(seat, index, mid) && room.moves_and_ends(
                g.deck_swap_rejection(pid, power, index),
                mid.slot_swapped_with_deck(seat, index),
                next,
                r,
                out,
            );
        if g.seats[seat].slots[index] is Some {
            lemma_refill_keeps_cards(g, mid);
        }
        lemma_deck_swap_keeps_cards(mid, seat, index);
        lemma_move_then_end(g, mid.slot_swapped_with_deck(seat, index));
    }
}

} // verus!
