use crate::cards::rank::{Rank, ACE};
use crate::cards::suit::Suit;
use crate::games::poker::layout::packed;
use vstd::prelude::*;

verus! {

/// A playing card: a rank and a suit. Two cards are equal when both are.
#[derive(Clone, Copy, Debug, PartialEq, Eq, Structural, Hash, PartialOrd, Ord)]
pub struct Card {
    pub rank: Rank,
    pub suit: Suit,
}

impl Card {
    /// The blank card: no rank, no suit.
    pub open spec fn blank() -> Card {
        Card { rank: Rank::blank(), suit: Suit::blank() }
    }

    /// Whether this is one of the fifty-two cards.
    pub open spec fn valid(self) -> bool {
        self.rank.valid() && self.suit.valid()
    }

    pub fn new(rank: Rank, suit: Suit) -> (card: Card)
        ensures
            card == (Card { rank, suit }),
    {
        Card { rank, suit }
    }

    /// The word that the card packs into.
    pub fn binary_signature(&self) -> (word: u32)
        ensures
            word == packed(*self),
    {
        let suit: u32 = self.suit.binary_signature();
        let weight: u32 = self.rank.weight;
        let bits: u32 = if weight <= ACE {
            1 << (16 + weight)
        } else {
            0
        };
        (self.rank.prime & 0x3f) | ((weight & 0xf) << 8) | suit | bits
    }

    /// Whether this is one of the fifty-two cards.
    pub fn is_valid(&self) -> (valid: bool)
        ensures
            valid == self.valid(),
    {
        !self.rank.is_blank() && !self.suit.is_blank()
    }
}

impl Default for Card {
    fn default() -> (card: Card)
        ensures
            card == Card::blank(),
    {
        Card { rank: Rank::default(), suit: Suit::default() }
    }
}

} // verus!
