use crate::cards::card::Card;
use crate::cards::rank::{
    Rank, ACE, EIGHT, FIVE, FOUR, JACK, KING, NINE, QUEEN, SEVEN, SIX, TEN, THREE, TWO,
};
use crate::cards::suit::{Suit, CLUBS, DIAMONDS, HEARTS, SPADES};
use vstd::prelude::*;

verus! {

/// Bits 0 to 5 of a packed card hold the prime of its rank.
pub const PRIME_MASK: u32 = 0x0000_003f;

/// Bits 8 to 11 hold the weight of its rank.
pub const WEIGHT_MASK: u32 = 0x0000_0f00;

/// Bits 12 to 15 hold one bit for each suit: spades lowest, then hearts,
/// diamonds and clubs.
pub const SUIT_MASK: u32 = 0x0000_f000;

/// Bits 16 to 28 hold one bit for each rank: the deuce lowest, the ace highest.
pub const RANK_MASK: u32 = 0x1fff_0000;

/// The prime, as the six bits 0 to 5.
pub open spec fn prime_field(prime: u32) -> u32 {
    prime & 0x3f
}

/// The weight, as the four bits 8 to 11.
pub open spec fn weight_field(weight: u32) -> u32 {
    (weight & 0xf) << 8
}

/// The bit among 12 to 15 that stands for the suit of this weight; no bit for
/// a weight that is not a suit's.
pub open spec fn suit_flag(weight: u32) -> u32 {
    if weight == SPADES {
        0x1000
    } else if weight == HEARTS {
        0x2000
    } else if weight == DIAMONDS {
        0x4000
    } else if weight == CLUBS {
        0x8000
    } else {
        0
    }
}

/// The bit among 16 to 28 that stands for the rank of this weight; no bit for
/// a weight that is not a rank's.
pub open spec fn rank_flag(weight: u32) -> u32 {
    if weight <= ACE {
        1u32 << (16 + weight)
    } else {
        0
    }
}

/// The 32-bit word that a card packs into:
///
/// ```txt
/// +--------+--------+--------+--------+
/// |xxxbbbbb|bbbbbbbb|cdhsrrrr|xxpppppp|
/// +--------+--------+--------+--------+
///
/// p = prime number of rank (deuce=2,trey=3,four=5,...,ace=41)
/// r = rank of card (deuce=0,trey=1,four=2,five=3,...,ace=12)
/// cdhs = suit of card (bit turned on based on suit of card)
/// b = bit turned on depending on rank of card
/// ```
///
/// It is defined for every card; of a card that is not one of the fifty-two
/// it keeps what fits the fields.
pub open spec fn packed(card: Card) -> u32 {
    prime_field(card.rank.prime) | weight_field(card.rank.weight) | suit_flag(card.suit.weight)
        | rank_flag(card.rank.weight)
}

/// The rank that a word's upper half spells: the word's bits 16 to 31 must be
/// the flag of one rank and nothing else. Any other pattern gives the blank
/// rank.
pub open spec fn decoded_rank(word: u32) -> Rank {
    let window = word >> 16;
    if window == 0x1000 {
        Rank::of_weight(ACE)
    } else if window == 0x0800 {
        Rank::of_weight(KING)
    } else if window == 0x0400 {
        Rank::of_weight(QUEEN)
    } else if window == 0x0200 {
        Rank::of_weight(JACK)
    } else if window == 0x0100 {
        Rank::of_weight(TEN)
    } else if window == 0x0080 {
        Rank::of_weight(NINE)
    } else if window == 0x0040 {
        Rank::of_weight(EIGHT)
    } else if window == 0x0020 {
        Rank::of_weight(SEVEN)
    } else if window == 0x0010 {
        Rank::of_weight(SIX)
    } else if window == 0x0008 {
        Rank::of_weight(FIVE)
    } else if window == 0x0004 {
        Rank::of_weight(FOUR)
    } else if window == 0x0002 {
        Rank::of_weight(THREE)
    } else if window == 0x0001 {
        Rank::of_weight(TWO)
    } else {
        Rank::blank()
    }
}

/// The suit that a word's bits 12 to 15 spell: exactly one of them must be
/// set. Any other pattern gives the blank suit.
pub open spec fn decoded_suit(word: u32) -> Suit {
    let field = (word >> 12) & 0xf;
    if field == 0x1 {
        Suit::of_weight(SPADES)
    } else if field == 0x2 {
        Suit::of_weight(HEARTS)
    } else if field == 0x4 {
        Suit::of_weight(DIAMONDS)
    } else if field == 0x8 {
        Suit::of_weight(CLUBS)
    } else {
        Suit::blank()
    }
}

/// A word with the weight's field written over: bits 8 to 11 hold the weight,
/// the rest is as before.
pub open spec fn with_weight(word: u32, weight: u32) -> u32 {
    (word & !WEIGHT_MASK) | weight_field(weight)
}

/// A word with the prime's field written over: bits 0 to 5 hold the prime, the
/// rest is as before.
pub open spec fn with_prime(word: u32, prime: u32) -> u32 {
    (word & !PRIME_MASK) | prime_field(prime)
}

/// A word with the rank's flag set.
pub open spec fn with_rank_flag(word: u32, weight: u32) -> u32 {
    word | rank_flag(weight)
}

/// A word with the suit's flag set.
pub open spec fn with_suit_flag(word: u32, weight: u32) -> u32 {
    word | suit_flag(weight)
}

proof fn lemma_flags_in_place(rank_weight: u32, suit_weight: u32)
    by (bit_vector)
    ensures
        rank_flag(rank_weight) & !RANK_MASK == 0,
        suit_flag(suit_weight) & !SUIT_MASK == 0,
{
}

proof fn lemma_fields_apart(prime: u32, weight: u32, suit: u32, rank: u32)
    by (bit_vector)
    requires
        suit & !SUIT_MASK == 0,
        rank & !RANK_MASK == 0,
    ensures
        ({
            let word = prime_field(prime) | weight_field(weight) | suit | rank;
            &&& word & PRIME_MASK == prime & 0x3f
            &&& (word & WEIGHT_MASK) >> 8 == weight & 0xf
            &&& word & SUIT_MASK == suit
            &&& (word >> 12) & 0xf == suit >> 12
            &&& word & RANK_MASK == rank
            &&& word >> 16 == rank >> 16
            &&& word & !(PRIME_MASK | WEIGHT_MASK | SUIT_MASK | RANK_MASK) == 0
        }),
{
}

proof fn lemma_valid_fields(prime: u32, weight: u32)
    by (bit_vector)
    requires
        prime <= 41,
        weight <= 12,
    ensures
        prime & 0x3f == prime,
        weight & 0xf == weight,
{
}

proof fn lemma_rank_windows(weight: u32)
    by (bit_vector)
    requires
        weight <= 12,
    ensures
        rank_flag(weight) != 0,
        (rank_flag(weight) >> 16 == 0x1000) == (weight == 12),
        (rank_flag(weight) >> 16 == 0x0800) == (weight == 11),
        (rank_flag(weight) >> 16 == 0x0400) == (weight == 10),
        (rank_flag(weight) >> 16 == 0x0200) == (weight == 9),
        (rank_flag(weight) >> 16 == 0x0100) == (weight == 8),
        (rank_flag(weight) >> 16 == 0x0080) == (weight == 7),
        (rank_flag(weight) >> 16 == 0x0040) == (weight == 6),
        (rank_flag(weight) >> 16 == 0x0020) == (weight == 5),
        (rank_flag(weight) >> 16 == 0x0010) == (weight == 4),
        (rank_flag(weight) >> 16 == 0x0008) == (weight == 3),
        (rank_flag(weight) >> 16 == 0x0004) == (weight == 2),
        (rank_flag(weight) >> 16 == 0x0002) == (weight == 1),
        (rank_flag(weight) >> 16 == 0x0001) == (weight == 0),
{
}

proof fn lemma_suit_fields()
    by (bit_vector)
    ensures
        0x1000u32 >> 12 == 0x1,
        0x2000u32 >> 12 == 0x2,
        0x4000u32 >> 12 == 0x4,
        0x8000u32 >> 12 == 0x8,
{
}

/// The fields of a packed card hold what the layout says, and nothing lies
/// outside them: for each of the fifty-two cards, bits 0 to 5 are the prime,
/// bits 8 to 11 the weight, bits 12 to 15 the flag of the suit alone, bits 16
/// to 28 the flag of the rank alone, and bits 6, 7, 29, 30 and 31 are zero.
pub proof fn lemma_packed_fields(card: Card)
    requires
        card.valid(),
    ensures
        packed(card) & PRIME_MASK == card.rank.prime,
        (packed(card) & WEIGHT_MASK) >> 8 == card.rank.weight,
        packed(card) & SUIT_MASK == suit_flag(card.suit.weight),
        packed(card) & RANK_MASK == 1u32 << (16 + card.rank.weight),
        packed(card) & !(PRIME_MASK | WEIGHT_MASK | SUIT_MASK | RANK_MASK) == 0,
{
    let prime = card.rank.prime;
    let weight = card.rank.weight;
    let suit = suit_flag(card.suit.weight);
    let rank = rank_flag(weight);
    lemma_flags_in_place(weight, card.suit.weight);
    lemma_fields_apart(prime, weight, suit, rank);
    lemma_valid_fields(prime, weight);
}

/// Packing tells the fifty-two cards apart: two of them that pack into the
/// same word are the same card.
pub proof fn lemma_packed_injective(a: Card, b: Card)
    requires
        a.valid(),
        b.valid(),
        packed(a) == packed(b),
    ensures
        a == b,
{
    lemma_packed_fields(a);
    lemma_packed_fields(b);
}

/// What was packed can be read back: the rank and the suit that a packed card
/// decodes to are those of the card, for each of the fifty-two.
pub proof fn lemma_round_trip(card: Card)
    requires
        card.valid(),
    ensures
        decoded_rank(packed(card)) == card.rank,
        decoded_suit(packed(card)) == card.suit,
{
    let weight = card.rank.weight;
    let suit = suit_flag(card.suit.weight);
    let rank = rank_flag(weight);
    lemma_flags_in_place(weight, card.suit.weight);
    lemma_fields_apart(card.rank.prime, weight, suit, rank);
    lemma_rank_windows(weight);
    lemma_suit_fields();
}

/// None of the fifty-two cards packs into the blank word.
pub proof fn lemma_packed_is_not_blank(card: Card)
    requires
        card.valid(),
    ensures
        packed(card) != 0,
{
    let weight = card.rank.weight;
    lemma_flags_in_place(weight, card.suit.weight);
    lemma_fields_apart(card.rank.prime, weight, suit_flag(card.suit.weight), rank_flag(weight));
    lemma_rank_windows(weight);
    assert(0u32 & RANK_MASK == 0) by (bit_vector);
}

/// Writing the four fields onto the blank word, one after another, gives the
/// packed card.
pub proof fn lemma_fields_make_packed(card: Card)
    ensures
        with_suit_flag(
            with_prime(
                with_rank_flag(with_weight(0, card.rank.weight), card.rank.weight),
                card.rank.prime,
            ),
            card.suit.weight,
        ) == packed(card),
{
    lemma_flags_in_place(card.rank.weight, card.suit.weight);
    lemma_writes(
        0,
        card.rank.prime,
        card.rank.weight,
        suit_flag(card.suit.weight),
        rank_flag(card.rank.weight),
    );
}

proof fn lemma_writes(word: u32, prime: u32, weight: u32, suit: u32, rank: u32)
    by (bit_vector)
    requires
        suit & !SUIT_MASK == 0,
        rank & !RANK_MASK == 0,
    ensures
        with_prime(with_weight(0, weight) | rank, prime) | suit == prime_field(prime)
            | weight_field(weight) | suit | rank,
        with_weight(word, weight) | rank == with_weight(word | rank, weight),
        with_weight(word, weight) | suit == with_weight(word | suit, weight),
        with_prime(word, prime) | rank == with_prime(word | rank, prime),
        with_prime(word, prime) | suit == with_prime(word | suit, prime),
        with_weight(with_prime(word, prime), weight) == with_prime(
            with_weight(word, weight),
            prime,
        ),
        (word | rank) | suit == (word | suit) | rank,
{
}

/// Each of the four fields is written without touching the others, so that
/// the order of the writes does not matter: any two of them give the same word
/// either way round.
pub proof fn lemma_writes_commute(word: u32, card: Card)
    ensures
        with_rank_flag(with_weight(word, card.rank.weight), card.rank.weight) == with_weight(
            with_rank_flag(word, card.rank.weight),
            card.rank.weight,
        ),
        with_suit_flag(with_weight(word, card.rank.weight), card.suit.weight) == with_weight(
            with_suit_flag(word, card.suit.weight),
            card.rank.weight,
        ),
        with_rank_flag(with_prime(word, card.rank.prime), card.rank.weight) == with_prime(
            with_rank_flag(word, card.rank.weight),
            card.rank.prime,
        ),
        with_suit_flag(with_prime(word, card.rank.prime), card.suit.weight) == with_prime(
            with_suit_flag(word, card.suit.weight),
            card.rank.prime,
        ),
        with_weight(with_prime(word, card.rank.prime), card.rank.weight) == with_prime(
            with_weight(word, card.rank.weight),
            card.rank.prime,
        ),
        with_suit_flag(with_rank_flag(word, card.rank.weight), card.suit.weight) == with_rank_flag(
            with_suit_flag(word, card.suit.weight),
            card.rank.weight,
        ),
{
    lemma_flags_in_place(card.rank.weight, card.suit.weight);
    lemma_writes(
        word,
        card.rank.prime,
        card.rank.weight,
        suit_flag(card.suit.weight),
        rank_flag(card.rank.weight),
    );
}

} // verus!
