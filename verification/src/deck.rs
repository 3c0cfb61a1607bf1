//! The standard 52-card deck: its canonical order, shuffling, and the facts
//! about its contents on which card conservation rests.

use vstd::prelude::*;
use vstd::multiset::Multiset;
use rand::seq::SliceRandom;
use crate::card::{Card, Rank, Suit};

verus! {

/// Number of cards in a standard deck.
pub const DECK_SIZE: usize = 52;

/// The rank at position `i` of a suit, ace first.
pub open spec fn rank_at(i: int) -> Rank {
    if i == 0 {
        Rank::Ace
    } else if i == 1 {
        Rank::Two
    } else if i == 2 {
        Rank::Three
    } else if i == 3 {
        Rank::Four
    } else if i == 4 {
        Rank::Five
    } else if i == 5 {
        Rank::Six
    } else if i == 6 {
        Rank::Seven
    } else if i == 7 {
        Rank::Eight
    } else if i == 8 {
        Rank::Nine
    } else if i == 9 {
        Rank::Ten
    } else if i == 10 {
        Rank::Jack
    } else if i == 11 {
        Rank::Queen
    } else {
        Rank::King
    }
}

/// The suit at position `i`: clubs, diamonds, hearts, spades.
pub open spec fn suit_at(i: int) -> Suit {
    if i == 0 {
        Suit::Clubs
    } else if i == 1 {
        Suit::Diamonds
    } else if i == 2 {
        Suit::Hearts
    } else {
        Suit::Spades
    }
}

/// Position of a rank within its suit; inverse of [`rank_at`].
pub open spec fn rank_index(r: Rank) -> int {
    match r {
        Rank::Ace => 0,
        Rank::Two => 1,
        Rank::Three => 2,
        Rank::Four => 3,
        Rank::Five => 4,
        Rank::Six => 5,
        Rank::Seven => 6,
        Rank::Eight => 7,
        Rank::Nine => 8,
        Rank::Ten => 9,
        Rank::Jack => 10,
        Rank::Queen => 11,
        Rank::King => 12,
    }
}

/// Position of a suit; inverse of [`suit_at`].
pub open spec fn suit_index(s: Suit) -> int {
    match s {
        Suit::Clubs => 0,
        Suit::Diamonds => 1,
        Suit::Hearts => 2,
        Suit::Spades => 3,
    }
}

/// Position of a card in the unshuffled deck.
pub open spec fn card_index(c: Card) -> int {
    suit_index(c.suit) * 13 + rank_index(c.rank)
}

/// The card at position `i` of the unshuffled deck.
pub open spec fn card_at(i: int) -> Card {
    Card { rank: rank_at(i % 13), suit: suit_at(i / 13) }
}

/// The unshuffled deck: suit by suit, each from ace to king.
pub open spec fn standard_deck() -> Seq<Card> {
    Seq::new(52, |i: int| card_at(i))
}

/// The contents of a full deck, whatever its order.
pub open spec fn full_deck() -> Multiset<Card> {
    standard_deck().to_multiset()
}

/// Every card has its place in the unshuffled deck, and only that place.
pub proof fn lemma_card_index(c: Card)
    ensures
        0 <= card_index(c) < 52,
        card_at(card_index(c)) == c,
        standard_deck()[card_index(c)] == c,
{
}

/// A full deck holds each of the 52 cards exactly once.
pub proof fn lemma_full_deck_counts(c: Card)
    ensures
        full_deck().count(c) == 1,
        full_deck().len() == 52,
{
    let s = standard_deck();
    assert forall|i: int, j: int| 0 <= i < s.len() && 0 <= j < s.len() && i != j implies s[i]
        != s[j] by {
        assert(card_index(s[i]) == i);
        assert(card_index(s[j]) == j);
    }
    assert(s.no_duplicates());
    s.lemma_multiset_has_no_duplicates();
    lemma_card_index(c);
    assert(s.contains(c));
    s.to_multiset_ensures();
}

/// Exec counterpart of [`rank_at`].
fn rank_of(i: usize) -> (r: Rank)
    requires
        i < 13,
    ensures
        r == rank_at(i as int),
{
    if i == 0 {
        Rank::Ace
    } else if i == 1 {
        Rank::Two
    } else if i == 2 {
        Rank::Three
    } else if i == 3 {
        Rank::Four
    } else if i == 4 {
        Rank::Five
    } else if i == 5 {
        Rank::Six
    } else if i == 6 {
        Rank::Seven
    } else if i == 7 {
        Rank::Eight
    } else if i == 8 {
        Rank::Nine
    } else if i == 9 {
        Rank::Ten
    } else if i == 10 {
        Rank::Jack
    } else if i == 11 {
        Rank::Queen
    } else {
        Rank::King
    }
}

/// Exec counterpart of [`suit_at`].
fn suit_of(i: usize) -> (s: Suit)
    requires
        i < 4,
    ensures
        s == suit_at(i as int),
{
    if i == 0 {
        Suit::Clubs
    } else if i == 1 {
        Suit::Diamonds
    } else if i == 2 {
        Suit::Hearts
    } else {
        Suit::Spades
    }
}

/// The 52 cards in canonical order.
pub fn ordered_deck() -> (deck: Vec<Card>)
    ensures
        deck@ == standard_deck(),
{
    let mut deck: Vec<Card> = Vec::with_capacity(DECK_SIZE);
    let mut i: usize = 0;
    while i < 52
        invariant
            i <= 52,
            deck@.len() == i,
            forall|k: int| 0 <= k < i ==> deck@[k] == card_at(k),
        decreases 52 - i,
    {
        let c = Card { rank: rank_of(i % 13), suit: suit_of(i / 13) };
        deck.push(c);
        i = i + 1;
    }
    assert(deck@ =~= standard_deck());
    deck
}

/// Permutes the cards in place with the thread's random generator
/// (`rand::seq::SliceRandom::shuffle`, a Fisher-Yates shuffle made of swaps).
/// Claimed of it: the pile holds the same cards afterwards, each as often as
/// before. Nothing is said of their order.
#[verifier::external_body]
pub(crate) fn shuffle_cards(cards: &mut Vec<Card>)
    ensures
        final(cards)@.to_multiset() == old(cards)@.to_multiset(),
{
    cards.shuffle(&mut rand::thread_rng());
}

/// Tosses a coin with the thread's random generator (`rand::random`).
/// Nothing is claimed of the outcome.
#[verifier::external_body]
pub(crate) fn coin_flip() -> bool {
    rand::random::<bool>()
}

/// A freshly shuffled full deck.
pub fn build_deck() -> (deck: Vec<Card>)
    ensures
        deck@.to_multiset() == full_deck(),
        deck@.len() == 52,
{
    let mut deck = ordered_deck();
    shuffle_cards(&mut deck);
    proof {
        deck@.to_multiset_ensures();
        standard_deck().to_multiset_ensures();
    }
    deck
}

} // verus!
