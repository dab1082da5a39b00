use crate::games::poker::alt::lookups::PRIMES;
use vstd::prelude::*;

verus! {

// The ranks by their weights.
pub const TWO: u32 = 0;

pub const THREE: u32 = 1;

pub const FOUR: u32 = 2;

pub const FIVE: u32 = 3;

pub const SIX: u32 = 4;

pub const SEVEN: u32 = 5;

pub const EIGHT: u32 = 6;

pub const NINE: u32 = 7;

pub const TEN: u32 = 8;

pub const JACK: u32 = 9;

pub const QUEEN: u32 = 10;

pub const KING: u32 = 11;

pub const ACE: u32 = 12;

/// A rank of the French deck: its weight, from 0 for the deuce to 12 for the
/// ace, and the prime that stands for it in products of ranks.
///
/// Besides the thirteen ranks there is the blank rank, which stands for "no
/// rank": weight 0 and prime 0.
#[derive(Clone, Copy, Debug, PartialEq, Eq, Structural, Hash, PartialOrd, Ord)]
pub struct Rank {
    pub weight: u32,
    pub prime: u32,
}

impl Rank {
    /// The blank rank.
    pub open spec fn blank() -> Rank {
        Rank { weight: 0, prime: 0 }
    }

    /// The rank of the given weight; the blank rank where there is none.
    pub open spec fn of_weight(weight: u32) -> Rank {
        if weight <= ACE {
            Rank { weight, prime: PRIMES[weight as int] as u32 }
        } else {
            Rank::blank()
        }
    }

    /// The rank that a character of a card's index names: a digit from 2 to
    /// 9, or T, J, Q, K or A in either case. Any other character names the
    /// blank rank.
    pub open spec fn of_index(index: char) -> Rank {
        if index == '2' {
            Rank::of_weight(TWO)
        } else if index == '3' {
            Rank::of_weight(THREE)
        } else if index == '4' {
            Rank::of_weight(FOUR)
        } else if index == '5' {
            Rank::of_weight(FIVE)
        } else if index == '6' {
            Rank::of_weight(SIX)
        } else if index == '7' {
            Rank::of_weight(SEVEN)
        } else if index == '8' {
            Rank::of_weight(EIGHT)
        } else if index == '9' {
            Rank::of_weight(NINE)
        } else if index == 'T' || index == 't' {
            Rank::of_weight(TEN)
        } else if index == 'J' || index == 'j' {
            Rank::of_weight(JACK)
        } else if index == 'Q' || index == 'q' {
            Rank::of_weight(QUEEN)
        } else if index == 'K' || index == 'k' {
            Rank::of_weight(KING)
        } else if index == 'A' || index == 'a' {
            Rank::of_weight(ACE)
        } else {
            Rank::blank()
        }
    }

    /// Whether this is one of the thirteen ranks: a weight of the deck with
    /// the prime that the table gives it.
    pub open spec fn valid(self) -> bool {
        self.weight <= ACE && self.prime == PRIMES[self.weight as int]
    }

    /// The rank of the given weight; the blank rank where there is none.
    pub fn new(weight: u32) -> (rank: Rank)
        ensures
            rank == Rank::of_weight(weight),
    {
        if weight <= ACE {
            Rank { weight, prime: PRIMES[weight as usize] as u32 }
        } else {
            Rank { weight: 0, prime: 0 }
        }
    }

    /// The rank that a character of a card's index names.
    pub fn from_french_deck_index(index: char) -> (rank: Rank)
        ensures
            rank == Rank::of_index(index),
    {
        match index {
            '2' => Rank::new(TWO),
            '3' => Rank::new(THREE),
            '4' => Rank::new(FOUR),
            '5' => Rank::new(FIVE),
            '6' => Rank::new(SIX),
            '7' => Rank::new(SEVEN),
            '8' => Rank::new(EIGHT),
            '9' => Rank::new(NINE),
            'T' | 't' => Rank::new(TEN),
            'J' | 'j' => Rank::new(JACK),
            'Q' | 'q' => Rank::new(QUEEN),
            'K' | 'k' => Rank::new(KING),
            'A' | 'a' => Rank::new(ACE),
            _ => Rank::default(),
        }
    }

    /// The ranks of the given weights, in the order given.
    pub fn from_array(weights: &[u32]) -> (ranks: Vec<Rank>)
        ensures
            ranks@ == weights@.map_values(|w: u32| Rank::of_weight(w)),
    {
        let mut ranks: Vec<Rank> = Vec::new();
        let mut i: usize = 0;
        while i < weights.len()
            invariant
                i <= weights.len(),
                ranks@ == weights@.take(i as int).map_values(|w: u32| Rank::of_weight(w)),
            decreases weights.len() - i,
        {
            ranks.push(Rank::new(weights[i]));
            i += 1;
        }
        ranks
    }

    /// Whether this is none of the thirteen ranks.
    pub fn is_blank(&self) -> (blank: bool)
        ensures
            blank == !self.valid(),
    {
        !(self.weight <= ACE && self.prime == PRIMES[self.weight as usize] as u32)
    }
}

impl Default for Rank {
    fn default() -> (rank: Rank)
        ensures
            rank == Rank::blank(),
    {
        Rank { weight: 0, prime: 0 }
    }
}

/// A rank made from a weight is one of the thirteen exactly when the weight is
/// one of theirs, and then it carries that weight.
pub proof fn lemma_rank_of_weight(weight: u32)
    ensures
        Rank::of_weight(weight).valid() <==> weight <= ACE,
        weight <= ACE ==> Rank::of_weight(weight).weight == weight,
        !Rank::blank().valid(),
{
}

/// Each of the thirteen ranks is the rank of its own weight: weight and prime
/// determine each other.
pub proof fn lemma_valid_rank_is_of_weight(rank: Rank)
    requires
        rank.valid(),
    ensures
        rank == Rank::of_weight(rank.weight),
{
}

} // verus!
