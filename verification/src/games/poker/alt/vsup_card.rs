use crate::cards::card::Card;
use crate::cards::rank::Rank;
use crate::cards::suit::{Suit, CLUBS, DIAMONDS, HEARTS, SPADES};
use crate::games::poker::alt::holdem::CactusKevCard;
use crate::games::poker::alt::lookups;
use crate::games::poker::layout::{lemma_packed_injective, packed};
use vstd::prelude::*;
use vstd::string::*;

verus! {

#[derive(Debug, Eq, PartialEq, Structural, Copy, Clone, Ord, PartialOrd, Hash)]
pub enum VSupSuit {
    Spades,
    Hearts,
    Diamonds,
    Clubs,
}

impl VSupSuit {
    /// The weight by which the card model knows this suit.
    pub open spec fn weight(self) -> u32 {
        match self {
            VSupSuit::Spades => SPADES,
            VSupSuit::Hearts => HEARTS,
            VSupSuit::Diamonds => DIAMONDS,
            VSupSuit::Clubs => CLUBS,
        }
    }

    /// The letter that is written for this suit.
    pub open spec fn symbol(self) -> char {
        match self {
            VSupSuit::Spades => 's',
            VSupSuit::Hearts => 'h',
            VSupSuit::Diamonds => 'd',
            VSupSuit::Clubs => 'c',
        }
    }

    /// The suit as it is written: one lower-case letter.
    pub fn short_string(&self) -> (text: &'static str)
        ensures
            text@ == seq![self.symbol()],
    {
        proof {
            reveal_strlit("s");
            reveal_strlit("h");
            reveal_strlit("d");
            reveal_strlit("c");
        }
        match *self {
            VSupSuit::Spades => "s",
            VSupSuit::Hearts => "h",
            VSupSuit::Diamonds => "d",
            VSupSuit::Clubs => "c",
        }
    }
}

#[derive(Debug, Eq, PartialEq, Structural, Copy, Clone, Ord, PartialOrd, Hash)]
pub enum VSupValue {
    Two,
    Three,
    Four,
    Five,
    Six,
    Seven,
    Eight,
    Nine,
    Ten,
    Jack,
    Queen,
    King,
    Ace,
}

impl VSupValue {
    /// The weight of this value: 0 for the deuce, 12 for the ace.
    pub open spec fn weight(self) -> u32 {
        match self {
            VSupValue::Two => 0,
            VSupValue::Three => 1,
            VSupValue::Four => 2,
            VSupValue::Five => 3,
            VSupValue::Six => 4,
            VSupValue::Seven => 5,
            VSupValue::Eight => 6,
            VSupValue::Nine => 7,
            VSupValue::Ten => 8,
            VSupValue::Jack => 9,
            VSupValue::Queen => 10,
            VSupValue::King => 11,
            VSupValue::Ace => 12,
        }
    }

    /// The character that is written for this value.
    pub open spec fn symbol(self) -> char {
        match self {
            VSupValue::Two => '2',
            VSupValue::Three => '3',
            VSupValue::Four => '4',
            VSupValue::Five => '5',
            VSupValue::Six => '6',
            VSupValue::Seven => '7',
            VSupValue::Eight => '8',
            VSupValue::Nine => '9',
            VSupValue::Ten => 'T',
            VSupValue::Jack => 'J',
            VSupValue::Queen => 'Q',
            VSupValue::King => 'K',
            VSupValue::Ace => 'A',
        }
    }

    /// The value as it is written: one character.
    pub fn short_string(&self) -> (text: &'static str)
        ensures
            text@ == seq![self.symbol()],
    {
        proof {
            reveal_strlit("2");
            reveal_strlit("3");
            reveal_strlit("4");
            reveal_strlit("5");
            reveal_strlit("6");
            reveal_strlit("7");
            reveal_strlit("8");
            reveal_strlit("9");
            reveal_strlit("T");
            reveal_strlit("J");
            reveal_strlit("Q");
            reveal_strlit("K");
            reveal_strlit("A");
        }
        match *self {
            VSupValue::Two => "2",
            VSupValue::Three => "3",
            VSupValue::Four => "4",
            VSupValue::Five => "5",
            VSupValue::Six => "6",
            VSupValue::Seven => "7",
            VSupValue::Eight => "8",
            VSupValue::Nine => "9",
            VSupValue::Ten => "T",
            VSupValue::Jack => "J",
            VSupValue::Queen => "Q",
            VSupValue::King => "K",
            VSupValue::Ace => "A",
        }
    }
}

/// A card as a value and a suit.
#[derive(Debug, Eq, PartialEq, Structural, Copy, Clone, Ord, PartialOrd, Hash)]
pub struct VSupCard {
    pub value: VSupValue,
    pub suit: VSupSuit,
}

impl VSupCard {
    /// The same card in the card model. It is always one of the fifty-two.
    pub open spec fn as_card(self) -> Card {
        Card {
            rank: Rank::of_weight(self.value.weight()),
            suit: Suit::of_weight(self.suit.weight()),
        }
    }

    pub fn new(value: VSupValue, suit: VSupSuit) -> (card: VSupCard)
        ensures
            card == (VSupCard { value, suit }),
    {
        VSupCard { value, suit }
    }

    /// The card as it is written: the value's character, then the suit's letter.
    pub fn short_string(&self) -> (text: String)
        ensures
            text@ == seq![self.value.symbol(), self.suit.symbol()],
    {
        let mut text: String = String::from_str(self.value.short_string());
        text.append(self.suit.short_string());
        text
    }

    /// Converts a card to a `CactusKevCard`, which is a convenient binary representation:
    ///
    /// ```txt
    ///  +--------+--------+--------+--------+
    ///  |xxxbbbbb|bbbbbbbb|cdhsrrrr|xxpppppp|
    ///  +--------+--------+--------+--------+
    ///
    ///  p = prime number of value (deuce=2,trey=3,four=5,five=7,...,ace=41)
    ///  r = value of card (deuce=0,trey=1,four=2,five=3,...,ace=12)
    ///  cdhs = suit of card
    ///  b = bit turned on depending on value of card
    /// ```
    #[must_use]
    pub fn card_to_deck_number(&self) -> (word: CactusKevCard)
        ensures
            word == packed(self.as_card()),
    {
        let value: u32 = match self.value {
            VSupValue::Two => 0,
            VSupValue::Three => 1,
            VSupValue::Four => 2,
            VSupValue::Five => 3,
            VSupValue::Six => 4,
            VSupValue::Seven => 5,
            VSupValue::Eight => 6,
            VSupValue::Nine => 7,
            VSupValue::Ten => 8,
            VSupValue::Jack => 9,
            VSupValue::Queen => 10,
            VSupValue::King => 11,
            VSupValue::Ace => 12,
        };
        let prime: u32 = lookups::PRIMES[value as usize] as u32;
        let suit: u32 = match self.suit {
            VSupSuit::Spades => 0x1000,
            VSupSuit::Hearts => 0x2000,
            VSupSuit::Diamonds => 0x4000,
            VSupSuit::Clubs => 0x8000,
        };
        let bits: u32 = 1 << (16 + value);
        assert(prime & 0x3f == prime) by (bit_vector)
            requires
                prime <= 41,
        ;
        assert((value & 0xf) << 8 == value << 8) by (bit_vector)
            requires
                value <= 12,
        ;

        prime | value << 8 | suit | bits
    }
}

/// A card of values and suits is one of the fifty-two of the card model, and
/// two of them that differ are different cards there too.
pub proof fn lemma_as_card(a: VSupCard, b: VSupCard)
    ensures
        a.as_card().valid(),
        a.as_card() == b.as_card() ==> a == b,
{
}

/// Two cards that differ have different deck numbers.
pub proof fn lemma_deck_numbers_differ(a: VSupCard, b: VSupCard)
    requires
        a != b,
    ensures
        packed(a.as_card()) != packed(b.as_card()),
{
    lemma_as_card(a, b);
    lemma_as_card(b, a);
    if packed(a.as_card()) == packed(b.as_card()) {
        lemma_packed_injective(a.as_card(), b.as_card());
    }
}

} // verus!
