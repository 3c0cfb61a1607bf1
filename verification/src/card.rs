//! Playing cards: ranks, suits, scoring values and the views of a card that
//! may be shown to a player.

use vstd::prelude::*;

verus! {

/// The thirteen ranks of a standard deck, lowest first.
#[derive(Clone, Copy, Debug, PartialEq, Eq, Structural)]
pub enum Rank {
    Ace,
    Two,
    Three,
    Four,
    Five,
    Six,
    Seven,
    Eight,
    Nine,
    Ten,
    Jack,
    Queen,
    King,
}

/// The four suits, in deck-building order.
#[derive(Clone, Copy, Debug, PartialEq, Eq, Structural)]
pub enum Suit {
    Clubs,
    Diamonds,
    Hearts,
    Spades,
}

impl Suit {
    /// Diamonds and hearts are the red suits.
    pub open spec fn red(self) -> bool {
        self == Suit::Diamonds || self == Suit::Hearts
    }

    /// Whether the suit is red.
    pub fn is_red(&self) -> (r: bool)
        ensures
            r == self.red(),
    {
        match self {
            Suit::Diamonds | Suit::Hearts => true,
            Suit::Clubs | Suit::Spades => false,
        }
    }
}

/// A card of the standard 52-card deck.
#[derive(Clone, Copy, Debug, PartialEq, Eq, Structural)]
pub struct Card {
    pub rank: Rank,
    pub suit: Suit,
}

/// What every player may learn of a card: its rank, and whether it is a red
/// king (the only case in which the colour matters to the rules).
#[derive(Clone, Copy, Debug, PartialEq, Eq, Structural)]
pub struct CardPublic {
    pub rank: Rank,
    pub is_red_king: bool,
}

/// A card shown in full, as in the final reveal.
#[derive(Clone, Copy, Debug, PartialEq, Eq, Structural)]
pub struct CardPublicFull {
    pub rank: Rank,
    pub suit: Suit,
}

/// Points a card counts for at the reveal: the ace 1, pip cards their number,
/// jack 11, queen 12, a red king 13 and a black king nothing.
pub open spec fn points(c: Card) -> nat {
    match c.rank {
        Rank::Ace => 1,
        Rank::Two => 2,
        Rank::Three => 3,
        Rank::Four => 4,
        Rank::Five => 5,
        Rank::Six => 6,
        Rank::Seven => 7,
        Rank::Eight => 8,
        Rank::Nine => 9,
        Rank::Ten => 10,
        Rank::Jack => 11,
        Rank::Queen => 12,
        Rank::King => if c.suit.red() { 13 } else { 0 },
    }
}

/// The points of one card.
pub fn rank_points(c: &Card) -> (p: u32)
    ensures
        p == points(*c),
{
    match c.rank {
        Rank::Ace => 1,
        Rank::Two => 2,
        Rank::Three => 3,
        Rank::Four => 4,
        Rank::Five => 5,
        Rank::Six => 6,
        Rank::Seven => 7,
        Rank::Eight => 8,
        Rank::Nine => 9,
        Rank::Ten => 10,
        Rank::Jack => 11,
        Rank::Queen => 12,
        Rank::King => if c.suit.is_red() { 13 } else { 0 },
    }
}

/// The public view of a card.
pub open spec fn public_of(c: Card) -> CardPublic {
    CardPublic { rank: c.rank, is_red_king: c.rank == Rank::King && c.suit.red() }
}

/// The public view of a card: the suit is dropped, but for the red king's mark.
pub fn card_public(c: &Card) -> (p: CardPublic)
    ensures
        p == public_of(*c),
{
    let king = match c.rank {
        Rank::King => true,
        _ => false,
    };
    CardPublic { rank: c.rank, is_red_king: king && c.suit.is_red() }
}

/// The full view of a card.
pub fn card_public_full(c: &Card) -> (p: CardPublicFull)
    ensures
        p == (CardPublicFull { rank: c.rank, suit: c.suit }),
{
    CardPublicFull { rank: c.rank, suit: c.suit }
}

} // verus!
