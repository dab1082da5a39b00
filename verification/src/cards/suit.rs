use crate::games::poker::layout::suit_flag;
use vstd::prelude::*;

verus! {

// The suits by their weights.
pub const CLUBS: u32 = 1;

pub const DIAMONDS: u32 = 2;

pub const HEARTS: u32 = 3;

pub const SPADES: u32 = 4;

/// A suit of the French deck, known by its weight: 4 for spades, 3 for hearts,
/// 2 for diamonds, 1 for clubs. The blank suit, weight 0, stands for "no suit".
#[derive(Clone, Copy, Debug, PartialEq, Eq, Structural, Hash, PartialOrd, Ord)]
pub struct Suit {
    pub weight: u32,
}

impl Suit {
    /// The blank suit.
    pub open spec fn blank() -> Suit {
        Suit { weight: 0 }
    }

    /// The suit of the given weight; the blank suit where there is none.
    pub open spec fn of_weight(weight: u32) -> Suit {
        if CLUBS <= weight <= SPADES {
            Suit { weight }
        } else {
            Suit::blank()
        }
    }

    /// The suit that a character of a card's index names: the suit's first
    /// letter in either case, or its glyph, filled or outlined. Any other
    /// character names the blank suit.
    pub open spec fn of_index(index: char) -> Suit {
        if index == 'S' || index == 's' || index == '\u{2660}' || index == '\u{2664}' {
            Suit::of_weight(SPADES)
        } else if index == 'H' || index == 'h' || index == '\u{2665}' || index == '\u{2661}' {
            Suit::of_weight(HEARTS)
        } else if index == 'D' || index == 'd' || index == '\u{2666}' || index == '\u{2662}' {
            Suit::of_weight(DIAMONDS)
        } else if index == 'C' || index == 'c' || index == '\u{2663}' || index == '\u{2667}' {
            Suit::of_weight(CLUBS)
        } else {
            Suit::blank()
        }
    }

    /// The bit that stands for this suit in a packed card.
    pub fn binary_signature(&self) -> (flag: u32)
        ensures
            flag == suit_flag(self.weight),
    {
        match self.weight {
            4 => 0x1000,
            3 => 0x2000,
            2 => 0x4000,
            1 => 0x8000,
            _ => 0,
        }
    }

    /// Whether this is one of the four suits.
    pub open spec fn valid(self) -> bool {
        CLUBS <= self.weight <= SPADES
    }

    /// The suit of the given weight; the blank suit where there is none.
    pub fn new(weight: u32) -> (suit: Suit)
        ensures
            suit == Suit::of_weight(weight),
    {
        if CLUBS <= weight && weight <= SPADES {
            Suit { weight }
        } else {
            Suit { weight: 0 }
        }
    }

    /// The suit that a character of a card's index names.
    pub fn from_french_deck_index(index: char) -> (suit: Suit)
        ensures
            suit == Suit::of_index(index),
    {
        match index {
            'S' | 's' | '\u{2660}' | '\u{2664}' => Suit::new(SPADES),
            'H' | 'h' | '\u{2665}' | '\u{2661}' => Suit::new(HEARTS),
            'D' | 'd' | '\u{2666}' | '\u{2662}' => Suit::new(DIAMONDS),
            'C' | 'c' | '\u{2663}' | '\u{2667}' => Suit::new(CLUBS),
            _ => Suit::default(),
        }
    }

    /// The suits of the given weights, in the order given.
    pub fn from_array(weights: &[u32]) -> (suits: Vec<Suit>)
        ensures
            suits@ == weights@.map_values(|w: u32| Suit::of_weight(w)),
    {
        let mut suits: Vec<Suit> = Vec::new();
        let mut i: usize = 0;
        while i < weights.len()
            invariant
                i <= weights.len(),
                suits@ == weights@.take(i as int).map_values(|w: u32| Suit::of_weight(w)),
            decreases weights.len() - i,
        {
            suits.push(Suit::new(weights[i]));
            i += 1;
        }
        suits
    }

    /// Whether this is none of the four suits.
    pub fn is_blank(&self) -> (blank: bool)
        ensures
            blank == !self.valid(),
    {
        !(CLUBS <= self.weight && self.weight <= SPADES)
    }
}

impl Default for Suit {
    fn default() -> (suit: Suit)
        ensures
            suit == Suit::blank(),
    {
        Suit { weight: 0 }
    }
}

} // verus!
