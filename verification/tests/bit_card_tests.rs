#![allow(non_snake_case)]

use bitvec::prelude::{BitVec, Msb0};
use cardpack::games::poker::bits::bits_value;
use cardpack::{BitCard, Card, Rank, Standard52, Suit};
use cardpack::{ACE, EIGHT, FIVE, FOUR, JACK, KING, NINE, QUEEN, SEVEN, SIX, TEN, THREE, TWO};
use cardpack::{CardError, CLUBS, DIAMONDS, HEARTS, SPADES};
use std::collections::{BTreeSet, HashSet};

#[test]
fn len() {
    assert_eq!(BitCard::default().0.len(), 32);
}

#[test]
fn new_from_card() {
    let card = Standard52::card_from_index("K♦");
    let cactusKevCard: BitCard = BitCard::new_from_card(&card);

    assert_eq!(
        "00001000 00000000 01001011 00100101",
        cactusKevCard.display(true)
    );
}

/// This test goes through all 52 cards in a Standard52 deck and compares the
/// `BitCard` version of the bit signature with the `Card`'s version.
#[test]
fn new_from_card__complete() {
    let standard52 = Standard52::default();
    assert_eq!(standard52.cards.cards().len(), 52);
    for card in standard52.cards.cards() {
        let cactusKevCard: BitCard = BitCard::new_from_card(card);
        let s = format!("{:032b}", card.binary_signature()).to_string();
        assert_eq!(s, cactusKevCard.display(false));
    }
}

#[test]
fn new_from_index() {
    let card = Standard52::card_from_index("KS");
    let expected = BitCard::new_from_card(&card);

    let actual = BitCard::new_from_index("KS").unwrap();

    assert_eq!(expected, actual);
}

#[test]
fn new_from_index__invalid() {
    assert!(BitCard::new_from_index("xx").is_err());
}

#[test]
fn new_from_u64() {
    let ace_spades: u64 = 268442665;
    let s = "00010000 00000000 00011100 00101001".to_string();
    let actual = BitCard::new_from_u64(ace_spades);

    assert_eq!(actual.display(true), s);
    assert_eq!(actual, BitCard::new_from_index("A♤").unwrap());
}

#[test]
fn get_rank() {
    assert_eq!(BitCard::new_from_index("AS").unwrap().get_rank(), Rank::new(ACE));
    assert_eq!(BitCard::new_from_index("KS").unwrap().get_rank(), Rank::new(KING));
    assert_eq!(BitCard::new_from_index("QS").unwrap().get_rank(), Rank::new(QUEEN));
    assert_eq!(BitCard::new_from_index("JS").unwrap().get_rank(), Rank::new(JACK));
    assert_eq!(BitCard::new_from_index("TS").unwrap().get_rank(), Rank::new(TEN));
    assert_eq!(BitCard::new_from_index("9S").unwrap().get_rank(), Rank::new(NINE));
    assert_eq!(BitCard::new_from_index("8S").unwrap().get_rank(), Rank::new(EIGHT));
    assert_eq!(BitCard::new_from_index("7S").unwrap().get_rank(), Rank::new(SEVEN));
    assert_eq!(BitCard::new_from_index("6S").unwrap().get_rank(), Rank::new(SIX));
    assert_eq!(BitCard::new_from_index("5S").unwrap().get_rank(), Rank::new(FIVE));
    assert_eq!(BitCard::new_from_index("4S").unwrap().get_rank(), Rank::new(FOUR));
    assert_eq!(BitCard::new_from_index("3S").unwrap().get_rank(), Rank::new(THREE));
    assert_eq!(BitCard::new_from_index("2S").unwrap().get_rank(), Rank::new(TWO));
}

fn as_bitvec(bits: Vec<bool>) -> BitVec<Msb0, u8> {
    bits.into_iter().collect()
}

#[test]
fn get_rank_bits() {
    let card: BitCard = BitCard::new_from_index("KS").unwrap();
    assert_eq!(
        "[00001000, 00000000]",
        format!("{:b}", as_bitvec(card.get_rank_bits_slice()))
    );
}

#[test]
fn get_suit_slice() {
    let card: BitCard = BitCard::new_from_index("KS").unwrap();
    assert_eq!("[0001]", format!("{:04b}", as_bitvec(card.get_suit_slice())));

    let card: BitCard = BitCard::new_from_index("KH").unwrap();
    assert_eq!("[0010]", format!("{:04b}", as_bitvec(card.get_suit_slice())));

    let card: BitCard = BitCard::new_from_index("K♦").unwrap();
    assert_eq!("[0100]", format!("{:04b}", as_bitvec(card.get_suit_slice())));

    let card: BitCard = BitCard::new_from_index("KC").unwrap();
    assert_eq!("[1000]", format!("{:04b}", as_bitvec(card.get_suit_slice())));
}

#[test]
fn is_blank() {
    assert!(BitCard::default().is_blank());
    assert!(!BitCard::new_from_index("KS").unwrap().is_blank());
}

#[test]
fn is_blank__false() {
    assert!(!BitCard::new_from_index("KS").unwrap().is_blank());
}

#[test]
fn set_rank() {
    let mut bit_card: BitCard = BitCard::default();
    let card = Standard52::card_from_index("K♦");

    bit_card.set_rank(&card);
    assert_eq!(
        "00000000 00000000 00001011 00000000",
        bit_card.display(true)
    );
}

#[test]
fn set_rank_flag() {
    let mut bit_card: BitCard = BitCard::default();
    let card = Standard52::card_from_index("K♦");

    bit_card.set_rank_flag(&card);
    assert_eq!(
        "00001000 00000000 00000000 00000000",
        bit_card.display(true)
    );
}

#[test]
fn set_rank_prime() {
    let mut bit_card: BitCard = BitCard::default();
    let card = Standard52::card_from_index("K♦");

    bit_card.set_rank_prime(&card);
    assert_eq!(
        "00000000 00000000 00000000 00100101",
        bit_card.display(true)
    );
}

#[test]
fn set_suit() {
    let mut bit_card: BitCard = BitCard::default();

    let card = Standard52::card_from_index("KS");
    bit_card.set_suit(&card);
    assert_eq!(
        "00000000 00000000 00010000 00000000",
        bit_card.display(true)
    );

    let card = Standard52::card_from_index("KH");
    let mut bit_card: BitCard = BitCard::default();
    bit_card.set_suit(&card);
    assert_eq!(
        "00000000 00000000 00100000 00000000",
        bit_card.display(true)
    );

    let card = Standard52::card_from_index("K♦");
    let mut bit_card: BitCard = BitCard::default();
    bit_card.set_suit(&card);
    assert_eq!(
        "00000000 00000000 01000000 00000000",
        bit_card.display(true)
    );

    let card = Standard52::card_from_index("KC");
    let mut bit_card: BitCard = BitCard::default();
    bit_card.set_suit(&card);
    assert_eq!(
        "00000000 00000000 10000000 00000000",
        bit_card.display(true)
    );
}

fn all_cards() -> Vec<Card> {
    Standard52::default().cards.cards().clone()
}

#[test]
fn fifty_two_cards_pack_into_fifty_two_words() {
    let cards = all_cards();
    let packed: Vec<BitCard> = cards.iter().map(BitCard::new_from_card).collect();
    let by_hash: HashSet<&BitCard> = packed.iter().collect();
    let by_order: BTreeSet<&BitCard> = packed.iter().collect();
    let texts: HashSet<String> = packed.iter().map(|c| c.display(false)).collect();
    assert_eq!(by_hash.len(), 52);
    assert_eq!(by_order.len(), 52);
    assert_eq!(texts.len(), 52);
    for (i, a) in packed.iter().enumerate() {
        for (j, b) in packed.iter().enumerate() {
            assert_eq!(a == b, i == j);
        }
    }
}

#[test]
fn rank_and_suit_come_back() {
    for card in all_cards() {
        let packed = BitCard::new_from_card(&card);
        assert_eq!(packed.get_rank(), card.rank);
        assert_eq!(packed.get_suit(), card.suit);
    }
}

#[test]
fn no_card_packs_into_the_blank_word() {
    assert!(BitCard::default().is_blank());
    assert!(BitCard::new_from_u64(0).is_blank());
    assert!(BitCard::new([0, 0, 0, 0]).is_blank());
    for card in all_cards() {
        assert!(!BitCard::new_from_card(&card).is_blank());
    }
}

#[test]
fn a_single_bit_is_not_blank() {
    for shift in 0..32 {
        assert!(!BitCard::new_from_u64(1 << shift).is_blank());
    }
}

#[test]
fn king_of_each_suit_sets_one_suit_bit() {
    let kings = [("KS", 0x1000u64), ("KH", 0x2000), ("KD", 0x4000), ("KC", 0x8000)];
    for (index, flag) in kings {
        let packed = BitCard::new_from_index(index).unwrap();
        let expected = BitCard::new_from_u64(0x0800_0b25 | flag);
        assert_eq!(packed, expected);
        let suit_bits = packed.get_suit_slice();
        assert_eq!(suit_bits.iter().filter(|bit| **bit).count(), 1);
    }
}

#[test]
fn king_of_diamonds_word() {
    let card = Card::new(Rank::new(KING), Suit::new(DIAMONDS));
    assert_eq!(card.binary_signature(), 0x0800_4b25);
    assert_eq!(
        BitCard::new_from_card(&card),
        BitCard::new_from_u64(0x0800_4b25)
    );
    assert_eq!(
        BitCard::new_from_card(&card).display(false),
        "00001000000000000100101100100101"
    );
}

#[test]
fn ace_of_spades_word() {
    let card = Card::new(Rank::new(ACE), Suit::new(SPADES));
    assert_eq!(card.binary_signature(), 268442665);
    assert_eq!(
        BitCard::new_from_card(&card).display(true),
        "00010000 00000000 00011100 00101001"
    );
}

#[test]
fn deuce_of_clubs_word() {
    let card = Card::new(Rank::new(TWO), Suit::new(CLUBS));
    assert_eq!(card.binary_signature(), 0x0001_8002);
    assert_eq!(
        BitCard::new_from_card(&card).display(true),
        "00000000 00000001 10000000 00000010"
    );
}

#[test]
fn invalid_index_gives_invalid_card() {
    assert_eq!(BitCard::new_from_index("xx"), Err(CardError::InvalidCard));
    assert_eq!(BitCard::new_from_index(""), Err(CardError::InvalidCard));
    assert_eq!(BitCard::new_from_index("K"), Err(CardError::InvalidCard));
    assert_eq!(BitCard::new_from_index("KSS"), Err(CardError::InvalidCard));
    assert_eq!(BitCard::new_from_index("SK"), Err(CardError::InvalidCard));
    assert_eq!(BitCard::new_from_index("1S"), Err(CardError::InvalidCard));
    assert_eq!(BitCard::new_from_index("Kx"), Err(CardError::InvalidCard));
}

#[test]
fn new_takes_the_bytes_in_order() {
    let card = BitCard::new([0x08, 0x00, 0x4b, 0x25]);
    assert_eq!(card.display(true), "00001000 00000000 01001011 00100101");
    assert_eq!(card, BitCard::new_from_index("KD").unwrap());
    let card = BitCard::new([0x80, 0x00, 0x00, 0x01]);
    assert_eq!(card, BitCard::new_from_u64(0x8000_0001));
}

#[test]
fn new_from_u64_keeps_the_lower_half() {
    let card = BitCard::new_from_u64(0xdead_beef_1000_1c29);
    assert_eq!(card, BitCard::new_from_u64(268442665));
    assert_eq!(
        BitCard::new_from_u64(0xffff_ffff).display(true),
        "11111111 11111111 11111111 11111111"
    );
    assert_eq!(
        BitCard::new_from_u64(1).display(false),
        "00000000000000000000000000000001"
    );
}

#[test]
fn display_of_the_blank_card() {
    assert_eq!(
        BitCard::default().display(true),
        "00000000 00000000 00000000 00000000"
    );
    assert_eq!(
        BitCard::default().display(false),
        "00000000000000000000000000000000"
    );
    assert_eq!(BitCard::default().display(true).len(), 35);
}

#[test]
fn unknown_patterns_decode_to_blanks() {
    let blank = BitCard::default();
    assert_eq!(blank.get_rank(), Rank::default());
    assert_eq!(blank.get_suit(), Suit::default());
    // two rank flags at once
    assert_eq!(BitCard::new_from_u64(0x1800_0000).get_rank(), Rank::default());
    // a bit above the rank flags
    assert_eq!(BitCard::new_from_u64(0x2000_0000).get_rank(), Rank::default());
    assert_eq!(BitCard::new_from_u64(0x3000_0000).get_rank(), Rank::default());
    // two suit flags at once
    assert_eq!(BitCard::new_from_u64(0x3000).get_suit(), Suit::default());
    assert_eq!(BitCard::new_from_u64(0xf000).get_suit(), Suit::default());
}

#[test]
fn rank_is_read_from_the_flag_alone() {
    // the flag of the nine with the prime and the weight of the king
    let card = BitCard::new_from_u64(0x0080_1b25);
    assert_eq!(card.get_rank(), Rank::new(NINE));
    assert_eq!(card.get_suit(), Suit::new(SPADES));
    assert_eq!(BitCard::new_from_u64(0x2000).get_suit(), Suit::new(HEARTS));
    assert_eq!(BitCard::new_from_u64(0x4000).get_suit(), Suit::new(DIAMONDS));
    assert_eq!(BitCard::new_from_u64(0x8000).get_suit(), Suit::new(CLUBS));
}

#[test]
fn fields_can_be_written_in_any_order() {
    for card in all_cards() {
        let mut forward = BitCard::default();
        forward.set_rank(&card);
        forward.set_rank_flag(&card);
        forward.set_rank_prime(&card);
        forward.set_suit(&card);
        let mut backward = BitCard::default();
        backward.set_suit(&card);
        backward.set_rank_prime(&card);
        backward.set_rank_flag(&card);
        backward.set_rank(&card);
        assert_eq!(forward, backward);
        assert_eq!(forward, BitCard::new_from_card(&card));
    }
}

#[test]
fn fields_are_written_over() {
    let king = Standard52::card_from_index("KD");
    let deuce = Standard52::card_from_index("2D");
    let mut card = BitCard::new_from_card(&king);
    card.set_rank(&deuce);
    card.set_rank_prime(&deuce);
    assert_eq!(card.display(true), "00001000 00000000 01000000 00000010");
}

#[test]
fn a_card_that_is_not_in_the_deck_packs_what_fits() {
    let odd = Card::new(Rank { weight: 0x1d, prime: 0x7f }, Suit { weight: 9 });
    assert!(!odd.is_valid());
    let packed = BitCard::new_from_card(&odd);
    assert_eq!(packed, BitCard::new_from_u64(0x0d3f));
    assert_eq!(odd.binary_signature(), 0x0d3f);
    let blank = Card::default();
    assert_eq!(BitCard::new_from_card(&blank), BitCard::new_from_u64(0x0001_0000));
}

#[test]
fn clone_is_equal() {
    let card = BitCard::new_from_index("QH").unwrap();
    let twin = card.clone();
    assert_eq!(card, twin);
    assert_eq!(twin.display(false), card.display(false));
    assert_ne!(card, BitCard::new_from_index("QD").unwrap());
}

#[test]
fn order_follows_the_word() {
    let low = BitCard::new_from_u64(0x0001_8002);
    let high = BitCard::new_from_u64(268442665);
    assert!(low < high);
    assert!(BitCard::default() < low);
}

#[test]
fn display_with_marks_lists_bits_and_legend() {
    let card = BitCard::new_from_index("KD").unwrap();
    assert_eq!(
        card.display_with_marks(),
        "[00001000 00000000 01001011 00100101, xxxAKQJT 98765432 CDHSrrrr xxpppppp]"
    );
}

#[test]
fn sorting_agrees_with_the_words() {
    let cards = all_cards();
    let mut packed: Vec<BitCard> = cards.iter().map(BitCard::new_from_card).collect();
    let mut words: Vec<u32> = cards.iter().map(Card::binary_signature).collect();
    packed.sort();
    words.sort_unstable();
    let sorted: Vec<BitCard> = words
        .iter()
        .map(|word| BitCard::new_from_u64(u64::from(*word)))
        .collect();
    assert_eq!(packed, sorted);
    for pair in packed.windows(2) {
        assert!(pair[0] < pair[1]);
        assert_eq!(pair[0].partial_cmp(&pair[1]), Some(std::cmp::Ordering::Less));
        assert_eq!(pair[0].cmp(&pair[1]), std::cmp::Ordering::Less);
    }
}

#[test]
fn bits_spell_a_number() {
    assert_eq!(bits_value(&vec![]), 0);
    assert_eq!(bits_value(&vec![true]), 1);
    assert_eq!(bits_value(&vec![true, false]), 2);
    assert_eq!(bits_value(&vec![false, true, true, false, true]), 0b01101);
    assert_eq!(bits_value(&vec![true; 32]), u32::MAX);
    let king = BitCard::new_from_index("KS").unwrap();
    assert_eq!(bits_value(&king.get_rank_bits_slice()), 0x0800);
    assert_eq!(bits_value(&king.get_suit_slice()), 0x1);
}
