use cardpack::games::poker::alt::lookups::PRIMES;
use cardpack::{BitCard, Card, Rank, Suit, VSupCard, VSupSuit, VSupValue};
use cardpack::{CLUBS, DIAMONDS, HEARTS, SPADES};
use std::collections::HashSet;

#[test]
fn scratch() {
    let card = VSupCard::new(VSupValue::Ace, VSupSuit::Spades);

    println!("{}", card.short_string());
    println!("{}", card.card_to_deck_number());
    println!("{:032b}", card.card_to_deck_number());
}

const VALUES: [VSupValue; 13] = [
    VSupValue::Two,
    VSupValue::Three,
    VSupValue::Four,
    VSupValue::Five,
    VSupValue::Six,
    VSupValue::Seven,
    VSupValue::Eight,
    VSupValue::Nine,
    VSupValue::Ten,
    VSupValue::Jack,
    VSupValue::Queen,
    VSupValue::King,
    VSupValue::Ace,
];

const SUITS: [(VSupSuit, u32); 4] = [
    (VSupSuit::Spades, SPADES),
    (VSupSuit::Hearts, HEARTS),
    (VSupSuit::Diamonds, DIAMONDS),
    (VSupSuit::Clubs, CLUBS),
];

#[test]
fn deck_number_of_the_ace_of_spades() {
    let card = VSupCard::new(VSupValue::Ace, VSupSuit::Spades);
    assert_eq!(card.card_to_deck_number(), 268442665);
    assert_eq!(
        format!("{:032b}", card.card_to_deck_number()),
        "00010000000000000001110000101001"
    );
}

#[test]
fn deck_number_of_the_king_of_diamonds() {
    let card = VSupCard::new(VSupValue::King, VSupSuit::Diamonds);
    assert_eq!(card.card_to_deck_number(), 0x0800_4b25);
}

#[test]
fn deck_number_of_the_deuce_of_clubs() {
    let card = VSupCard::new(VSupValue::Two, VSupSuit::Clubs);
    assert_eq!(card.card_to_deck_number(), 0x0001_8002);
}

#[test]
fn deck_numbers_are_the_packed_cards() {
    for (weight, value) in VALUES.iter().enumerate() {
        for (suit, suit_weight) in SUITS {
            let number = VSupCard::new(*value, suit).card_to_deck_number();
            let card = Card::new(Rank::new(weight as u32), Suit::new(suit_weight));
            assert_eq!(number, card.binary_signature());
            assert_eq!(
                BitCard::new_from_u64(u64::from(number)),
                BitCard::new_from_card(&card)
            );
        }
    }
}

#[test]
fn deck_numbers_differ() {
    let mut seen: HashSet<u32> = HashSet::new();
    for value in VALUES {
        for (suit, _) in SUITS {
            assert!(seen.insert(VSupCard::new(value, suit).card_to_deck_number()));
        }
    }
    assert_eq!(seen.len(), 52);
}

#[test]
fn deck_number_fields() {
    for (weight, value) in VALUES.iter().enumerate() {
        for (suit, _) in SUITS {
            let number = VSupCard::new(*value, suit).card_to_deck_number();
            assert_eq!(number & 0x3f, u32::from(PRIMES[weight]));
            assert_eq!((number >> 8) & 0xf, weight as u32);
            assert_eq!(number >> 16, 1 << weight);
            assert_eq!(((number >> 12) & 0xf).count_ones(), 1);
            assert_eq!(number & 0xe000_00c0, 0);
        }
    }
}

#[test]
fn short_strings() {
    let values: Vec<&str> = VALUES.iter().map(|v| v.short_string()).collect();
    assert_eq!(
        values,
        vec!["2", "3", "4", "5", "6", "7", "8", "9", "T", "J", "Q", "K", "A"]
    );
    assert_eq!(VSupSuit::Spades.short_string(), "s");
    assert_eq!(VSupSuit::Hearts.short_string(), "h");
    assert_eq!(VSupSuit::Diamonds.short_string(), "d");
    assert_eq!(VSupSuit::Clubs.short_string(), "c");
    assert_eq!(
        VSupCard::new(VSupValue::Ace, VSupSuit::Spades).short_string(),
        "As"
    );
    assert_eq!(
        VSupCard::new(VSupValue::Ten, VSupSuit::Diamonds).short_string(),
        "Td"
    );
}

#[test]
fn new_keeps_value_and_suit() {
    let card = VSupCard::new(VSupValue::Seven, VSupSuit::Hearts);
    assert_eq!(card.value, VSupValue::Seven);
    assert_eq!(card.suit, VSupSuit::Hearts);
    assert_eq!(
        card,
        VSupCard {
            value: VSupValue::Seven,
            suit: VSupSuit::Hearts
        }
    );
}
