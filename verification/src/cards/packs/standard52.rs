use crate::cards::card::Card;
use crate::cards::packs::Cardpack;
use crate::cards::pile::{crossed, Pile};
use crate::cards::rank::{
    Rank, ACE, EIGHT, FIVE, FOUR, JACK, KING, NINE, QUEEN, SEVEN, SIX, TEN, THREE, TWO,
};
use crate::cards::suit::{Suit, CLUBS, DIAMONDS, HEARTS, SPADES};
use crate::games::poker::layout::{lemma_packed_injective, packed};
use vstd::prelude::*;
use vstd::string::*;

verus! {

/// The French deck of fifty-two cards.
pub struct Standard52 {
    pub cards: Pile,
    pub pack: Pile,
}

/// The fifty-two cards in the deck's order: spades, hearts, diamonds, clubs,
/// and within each suit from the ace down to the deuce.
pub open spec fn standard_deck() -> Seq<Card> {
    Seq::new(
        52,
        |k: int|
            Card {
                rank: Rank::of_weight((12 - k % 13) as u32),
                suit: Suit::of_weight((4 - k / 13) as u32),
            },
    )
}

/// Where in the deck one of the fifty-two cards lies.
pub open spec fn deck_position(card: Card) -> int {
    (4 - card.suit.weight) * 13 + (12 - card.rank.weight)
}

/// The card that a text names: a rank's character followed by a suit's. A
/// text of another shape names the blank card.
pub open spec fn card_at_index(text: Seq<char>) -> Card {
    if text.len() == 2 && Rank::of_index(text[0]).valid() && Suit::of_index(text[1]).valid() {
        Card { rank: Rank::of_index(text[0]), suit: Suit::of_index(text[1]) }
    } else {
        Card::blank()
    }
}

impl Standard52 {
    /// The card that `card_str` names, such as `"AS"` or `"K♦"`; the blank
    /// card if it names none.
    pub fn card_from_index(card_str: &str) -> (card: Card)
        ensures
            card == card_at_index(card_str@),
    {
        if card_str.unicode_len() != 2 {
            return Card::default();
        }
        let rank = Rank::from_french_deck_index(card_str.get_char(0));
        let suit = Suit::from_french_deck_index(card_str.get_char(1));
        if rank.is_blank() || suit.is_blank() {
            Card::default()
        } else {
            Card::new(rank, suit)
        }
    }
}

impl Default for Standard52 {
    fn default() -> (deck: Standard52)
        ensures
            deck.cards@ == standard_deck(),
            deck.pack@ == standard_deck(),
    {
        Standard52 { cards: Self::cardpack(), pack: Self::cardpack() }
    }
}

impl Cardpack for Standard52 {
    open spec fn suit_order() -> Seq<Suit> {
        seq![SPADES, HEARTS, DIAMONDS, CLUBS].map_values(|w: u32| Suit::of_weight(w))
    }

    open spec fn rank_order() -> Seq<Rank> {
        seq![
            ACE,
            KING,
            QUEEN,
            JACK,
            TEN,
            NINE,
            EIGHT,
            SEVEN,
            SIX,
            FIVE,
            FOUR,
            THREE,
            TWO,
        ].map_values(|w: u32| Rank::of_weight(w))
    }

    fn cardpack() -> (cards: Pile)
        ensures
            cards@ == standard_deck(),
    {
        let mut cards: Pile = Pile::default();
        let suits = Self::suits();
        let ranks = Self::ranks();
        cards.fold_in(suits.as_slice(), ranks.as_slice());
        proof {
            lemma_standard_deck_is_crossed();
        }
        cards
    }

    fn suits() -> (suits: Vec<Suit>) {
        let weights: [u32; 4] = [SPADES, HEARTS, DIAMONDS, CLUBS];
        Suit::from_array(weights.as_slice())
    }

    fn ranks() -> (ranks: Vec<Rank>) {
        let weights: [u32; 13] = [
            ACE,
            KING,
            QUEEN,
            JACK,
            TEN,
            NINE,
            EIGHT,
            SEVEN,
            SIX,
            FIVE,
            FOUR,
            THREE,
            TWO,
        ];
        let ranks = Rank::from_array(weights.as_slice());
        assert(weights@ == seq![
            ACE,
            KING,
            QUEEN,
            JACK,
            TEN,
            NINE,
            EIGHT,
            SEVEN,
            SIX,
            FIVE,
            FOUR,
            THREE,
            TWO,
        ]);
        ranks
    }
}

/// The deck is every suit with every rank, in the deck's order of both.
pub proof fn lemma_standard_deck_is_crossed()
    ensures
        crossed(Standard52::suit_order(), Standard52::rank_order()) == standard_deck(),
{
    assert(Standard52::rank_order().len() == 13);
}

/// Every card of the deck is one of the fifty-two.
pub proof fn lemma_deck_cards_are_valid(k: int)
    requires
        0 <= k < 52,
    ensures
        standard_deck()[k].valid(),
{
}

/// Each of the fifty-two cards is in the deck, at its position.
pub proof fn lemma_deck_holds_every_card(card: Card)
    requires
        card.valid(),
    ensures
        0 <= deck_position(card) < 52,
        standard_deck()[deck_position(card)] == card,
{
}

/// No card is in the deck twice.
pub proof fn lemma_deck_has_no_duplicates(i: int, j: int)
    requires
        0 <= i < 52,
        0 <= j < 52,
        i != j,
    ensures
        standard_deck()[i] != standard_deck()[j],
{
}

/// The fifty-two cards of the deck pack into fifty-two different words.
pub proof fn lemma_deck_packs_apart(i: int, j: int)
    requires
        0 <= i < 52,
        0 <= j < 52,
        i != j,
    ensures
        packed(standard_deck()[i]) != packed(standard_deck()[j]),
{
    lemma_deck_cards_are_valid(i);
    lemma_deck_cards_are_valid(j);
    lemma_deck_has_no_duplicates(i, j);
    if packed(standard_deck()[i]) == packed(standard_deck()[j]) {
        lemma_packed_injective(standard_deck()[i], standard_deck()[j]);
    }
}

} // verus!
