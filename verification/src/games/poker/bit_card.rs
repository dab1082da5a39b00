use crate::cards::card::Card;
use crate::cards::card_error::CardError;
use crate::cards::packs::standard52::{card_at_index, Standard52};
use crate::cards::rank::{
    Rank, ACE, EIGHT, FIVE, FOUR, JACK, KING, NINE, QUEEN, SEVEN, SIX, TEN, THREE, TWO,
};
use crate::cards::suit::{Suit, CLUBS, DIAMONDS, HEARTS, SPADES};
use crate::games::poker::bits::{
    bit_at, bits_value, lemma_bit_of_or, lemma_bit_of_zero, lemma_bits_of_word, lemma_same_bits,
    lemma_word_of_bits, lemma_zeros_upto, place, word_of, zeros_upto,
};
use crate::games::poker::layout::{
    decoded_rank, decoded_suit, lemma_fields_make_packed, packed, with_prime, with_rank_flag,
    with_suit_flag, with_weight,
};
use bitvec::array::BitArray;
use bitvec::field::BitField;
use bitvec::order::Msb0;
use core::cmp::Ordering;
use vstd::prelude::*;
use vstd::std_specs::cmp::PartialEqSpecImpl;
use vstd::std_specs::cmp::PartialOrdSpecImpl;
use vstd::string::*;
use wyz::FmtForward;

verus! {

/// A card as thirty-two bits, held in a `BitArray` over four bytes that starts
/// with the most significant bit.
///
/// The array is `bitvec`'s, and nothing here looks inside it: what it holds
/// goes by the name of `card_bits`, and each function below that reaches into
/// the array says in its contract what it has from the array's own function.
#[verifier::external_body]
#[derive(Debug, Eq, Hash, Ord)]
pub struct BitCard(pub BitArray<Msb0, [u8; 4]>);

/// Five cards in a row: a poker hand.
pub struct FiveBitCards([BitCard; 5]);

/// The bits that the card's array holds, in the array's order: index 0 is the
/// first bit of the first byte.
pub uninterp spec fn card_bits(card: BitCard) -> Seq<bool>;

/// Bit `k` of `value`, bit 0 being the least significant.
pub open spec fn value_bit(value: u64, k: int) -> bool {
    (value >> (k as u64)) & 1 == 1
}

/// The character that is written for a bit.
pub open spec fn digit(bit: bool) -> char {
    if bit {
        '1'
    } else {
        '0'
    }
}

/// The word written out in binary, most significant bit first: thirty-two
/// digits, and with `split` a space after the eighth, the sixteenth and the
/// twenty-fourth of them.
pub open spec fn rendered(word: u32, split: bool) -> Seq<char> {
    if split {
        Seq::new(
            35,
            |k: int|
                if k % 9 == 8 {
                    ' '
                } else {
                    digit(bit_at(word, place(k - k / 9)))
                },
        )
    } else {
        Seq::new(32, |k: int| digit(bit_at(word, place(k))))
    }
}

/// Bit `k` of `byte`, bit 0 being the least significant.
pub open spec fn byte_bit(byte: u8, k: int) -> bool {
    (byte >> (k as u8)) & 1 == 1
}

/// The word that four bytes make, the first of them being the most
/// significant.
pub open spec fn buffer_word(buffer: [u8; 4]) -> u32 {
    (buffer[0] as u32) << 24 | (buffer[1] as u32) << 16 | (buffer[2] as u32) << 8
        | buffer[3] as u32
}

/// `BitArray::new`: an array over the four bytes given. Its bits are those of
/// the bytes in turn, each byte from its most significant bit down.
#[verifier::external_body]
fn over_buffer(buffer: [u8; 4]) -> (card: BitCard)
    ensures
        card_bits(card).len() == 32,
        forall|i: int| 0 <= i < 32 ==> card_bits(card)[i] == byte_bit(buffer[i / 8], 7 - i % 8),
{
    BitCard(BitArray::new(buffer))
}

/// `FmtForward::fmt_display` on each of two texts, written as a list: the
/// texts as they are, between square brackets, with a comma and a space
/// between them.
#[verifier::external_body]
fn listed(first: &str, second: &str) -> (text: String)
    ensures
        text@ == seq!['['] + first@ + seq![',', ' '] + second@ + seq![']'],
{
    format!("{:?}", [first.fmt_display(), second.fmt_display()])
}

/// `BitArray::zeroed`: an array of thirty-two bits, all of them zero.
#[verifier::external_body]
fn zeroed() -> (card: BitCard)
    ensures
        card_bits(card).len() == 32,
        forall|i: int| 0 <= i < 32 ==> !card_bits(card)[i],
{
    BitCard(BitArray::zeroed())
}

/// `BitSlice::set`: writes `value` to the bit at `index` and leaves every
/// other bit as it was. The outside function panics on an index past the
/// array's end.
#[verifier::external_body]
fn set_bit(card: &mut BitCard, index: usize, value: bool)
    requires
        index < 32,
    ensures
        card_bits(*final(card)).len() == 32,
        forall|i: int|
            0 <= i < 32 ==> card_bits(*final(card))[i] == (if i == index {
                value
            } else {
                card_bits(*old(card))[i]
            }),
{
    card.0.set(index, value);
}

/// `BitField::store_be` on the bits from index `lo` up to `hi`: the lowest
/// `hi - lo` bits of `value` are written there, the most significant of them
/// first, and every other bit of the array stays as it was. The outside
/// function panics on an empty range and on one wider than the integer.
#[verifier::external_body]
fn store_be(card: &mut BitCard, lo: usize, hi: usize, value: u64)
    requires
        lo < hi <= 32,
    ensures
        card_bits(*final(card)).len() == 32,
        forall|i: int|
            0 <= i < 32 ==> card_bits(*final(card))[i] == (if lo <= i < hi {
                value_bit(value, hi - 1 - i)
            } else {
                card_bits(*old(card))[i]
            }),
{
    card.0[lo..hi].store_be(value);
}

/// `BitSlice::count_zeros`: how many of the thirty-two bits are zero.
#[verifier::external_body]
fn count_zeros(card: &BitCard) -> (zeros: usize)
    ensures
        zeros == zeros_upto(card_bits(*card), 32),
{
    card.0.count_zeros()
}

/// `BitSlice::iter` on the bits from index `lo` up to `hi`: the bits as the
/// iterator hands them out one by one, in the array's order.
#[verifier::external_body]
fn bits_between(card: &BitCard, lo: usize, hi: usize) -> (bits: Vec<bool>)
    requires
        lo <= hi <= 32,
    ensures
        bits@.len() == hi - lo,
        forall|k: int| 0 <= k < hi - lo ==> bits@[k] == card_bits(*card)[lo + k],
{
    card.0[lo..hi].iter().by_val().collect()
}

impl View for BitCard {
    type V = u32;

    /// The card's thirty-two bits as one word.
    open spec fn view(&self) -> u32 {
        word_of(card_bits(*self))
    }
}

impl BitCard {
    /// The card over the four bytes given, the first of them holding the
    /// word's most significant bits.
    #[must_use]
    pub fn new(b: [u8; 4]) -> (card: BitCard)
        ensures
            card@ == buffer_word(b),
    {
        let card = over_buffer(b);
        proof {
            let word = buffer_word(b);
            assert forall|i: int| 0 <= i < 32 implies card_bits(card)[i] == bit_at(
                word,
                place(i),
            ) by {
                lemma_bit_of_buffer(b[0], b[1], b[2], b[3], place(i));
            }
            lemma_word_of_bits(card_bits(card), word);
        }
        card
    }

    /// Packs a card: the weight of its rank, the flag of its rank, the prime
    /// of its rank and the flag of its suit, each written to its own field of
    /// a blank word.
    #[must_use]
    pub fn new_from_card(card: &Card) -> (bit_card: BitCard)
        ensures
            bit_card@ == packed(*card),
    {
        let mut bit_card: BitCard = BitCard::default();
        bit_card.set_rank(card);
        bit_card.set_rank_flag(card);
        bit_card.set_rank_prime(card);
        bit_card.set_suit(card);
        proof {
            lemma_fields_make_packed(*card);
        }
        bit_card
    }

    /// The packed form of the card that the index names.
    ///
    /// # Errors
    ///
    /// Will return `CardError::InvalidCard` for an invalid index.
    pub fn new_from_index(i: &'static str) -> (result: Result<BitCard, CardError>)
        ensures
            match result {
                Ok(bit_card) => card_at_index(i@).valid() && bit_card@ == packed(card_at_index(i@)),
                Err(error) => !card_at_index(i@).valid() && error == CardError::InvalidCard,
            },
    {
        let c = Standard52::card_from_index(i);

        if c.is_valid() {
            Ok(BitCard::new_from_card(&c))
        } else {
            Err(CardError::InvalidCard)
        }
    }

    /// The card whose word is the lower thirty-two bits of `integer`.
    #[must_use]
    pub fn new_from_u64(integer: u64) -> (bc: BitCard)
        ensures
            bc@ == (integer & 0xffff_ffff) as u32,
    {
        let mut bc: BitCard = BitCard::default();
        store_be(&mut bc, 0, 32, integer);
        proof {
            let word = (integer & 0xffff_ffff) as u32;
            assert forall|i: int| 0 <= i < 32 implies card_bits(bc)[i] == bit_at(
                word,
                place(i),
            ) by {
                lemma_word_stored(integer, place(i));
            }
            lemma_word_of_bits(card_bits(bc), word);
        }
        bc
    }

    /// Takes the bits of the card and returns a `String` representation of
    /// them. If split is set to true, it will put a space between each byte.
    /// For instance, `00001000000000000100101100100101` becomes
    /// `00001000 00000000 01001011 00100101`.
    #[must_use]
    pub fn display(&self, split: bool) -> (word_string: String)
        ensures
            word_string@ == rendered(self@, split),
    {
        let bits = bits_between(self, 0, 32);
        let mut word_string = String::new();
        let mut idx: usize = 0;
        proof {
            lemma_bits_of_word(card_bits(*self));
            reveal_strlit("1");
            reveal_strlit("0");
            reveal_strlit(" ");
        }
        while idx < 32
            invariant
                idx <= 32,
                bits@.len() == 32,
                forall|k: int| 0 <= k < 32 ==> bits@[k] == bit_at(self@, place(k)),
                "1"@ == seq!['1'],
                "0"@ == seq!['0'],
                " "@ == seq![' '],
                word_string@.len() == (if !split {
                    idx as int
                } else if idx < 32 {
                    idx + idx / 8
                } else {
                    35
                }),
                forall|k: int|
                    0 <= k < word_string@.len() ==> word_string@[k] == rendered(self@, split)[k],
            decreases 32 - idx,
        {
            word_string.append(
                if bits[idx] {
                    "1"
                } else {
                    "0"
                },
            );
            if split && idx % 8 == 7 && idx % 32 != 31 {
                word_string.append(" ");
            }
            idx += 1;
        }
        word_string
    }

    /// The card's bits by byte, and under the same brackets what each of them
    /// is for:
    ///
    /// ```txt
    /// [00001000 00000000 01001011 00100101, xxxAKQJT 98765432 CDHSrrrr xxpppppp]
    ///
    /// p = prime number of rank (deuce=2,trey=3,four=5,...,ace=41)
    /// r = rank of card (deuce=0,trey=1,four=2,five=3,...,ace=12)
    /// cdhs = suit of card (bit turned on based on suit of card)
    /// b = bit turned on depending on rank of card
    /// ```
    #[must_use]
    pub fn display_with_marks(&self) -> (text: String)
        ensures
            text@ == seq!['['] + rendered(self@, true) + seq![',', ' ']
                + "xxxAKQJT 98765432 CDHSrrrr xxpppppp"@ + seq![']'],
    {
        let bits = self.display(true);
        listed(bits.as_str(), "xxxAKQJT 98765432 CDHSrrrr xxpppppp")
    }

    /// The sixteen bits that hold the flag of the rank: the upper half of the
    /// word, most significant bit first.
    #[must_use]
    pub fn get_rank_bits_slice(&self) -> (bits: Vec<bool>)
        ensures
            bits@.len() == 16,
            forall|k: int| 0 <= k < 16 ==> bits@[k] == bit_at(self@, place(k)),
    {
        proof {
            lemma_bits_of_word(card_bits(*self));
        }
        bits_between(self, 0, 16)
    }

    /// The four bits that hold the suit: clubs first, then diamonds, hearts
    /// and spades.
    #[must_use]
    pub fn get_suit_slice(&self) -> (bits: Vec<bool>)
        ensures
            bits@.len() == 4,
            forall|k: int| 0 <= k < 4 ==> bits@[k] == bit_at(self@, place(16 + k)),
    {
        proof {
            lemma_bits_of_word(card_bits(*self));
        }
        bits_between(self, 16, 20)
    }

    /// The rank that the card's upper sixteen bits spell: they must be the
    /// flag of one rank and nothing else, or the rank is blank.
    #[must_use]
    pub fn get_rank(&self) -> (rank: Rank)
        ensures
            rank == decoded_rank(self@),
    {
        let bits = self.get_rank_bits_slice();
        let window: u32 = bits_value(&bits);
        proof {
            let word = self@;
            assert forall|p: u32| p < 32 implies bit_at(window, p) == bit_at(word >> 16, p) by {
                lemma_bit_of_upper_half(word, p);
            }
            lemma_same_bits(window, word >> 16);
        }
        match window {
            0x1000 => Rank::new(ACE),
            0x0800 => Rank::new(KING),
            0x0400 => Rank::new(QUEEN),
            0x0200 => Rank::new(JACK),
            0x0100 => Rank::new(TEN),
            0x0080 => Rank::new(NINE),
            0x0040 => Rank::new(EIGHT),
            0x0020 => Rank::new(SEVEN),
            0x0010 => Rank::new(SIX),
            0x0008 => Rank::new(FIVE),
            0x0004 => Rank::new(FOUR),
            0x0002 => Rank::new(THREE),
            0x0001 => Rank::new(TWO),
            _ => Rank::default(),
        }
    }

    /// The suit that the card's four suit bits spell: exactly one of them must
    /// be set, or the suit is blank.
    #[must_use]
    pub fn get_suit(&self) -> (suit: Suit)
        ensures
            suit == decoded_suit(self@),
    {
        let bits = self.get_suit_slice();
        let field: u32 = bits_value(&bits);
        proof {
            let word = self@;
            assert forall|p: u32| p < 32 implies bit_at(field, p) == bit_at(
                (word >> 12) & 0xf,
                p,
            ) by {
                lemma_bit_of_suit_field(word, p);
            }
            lemma_same_bits(field, (word >> 12) & 0xf);
        }
        match field {
            0x1 => Suit::new(SPADES),
            0x2 => Suit::new(HEARTS),
            0x4 => Suit::new(DIAMONDS),
            0x8 => Suit::new(CLUBS),
            _ => Suit::default(),
        }
    }

    /// Whether all thirty-two bits are zero.
    #[must_use]
    pub fn is_blank(&self) -> (blank: bool)
        ensures
            blank == (self@ == 0),
    {
        proof {
            let bits = card_bits(*self);
            lemma_zeros_upto(bits, 32);
            lemma_bits_of_word(bits);
            if forall|i: int| 0 <= i < 32 ==> !bits[i] {
                assert forall|i: int| 0 <= i < 32 implies bits[i] == bit_at(0u32, place(i)) by {
                    lemma_bit_of_zero(place(i));
                }
                lemma_word_of_bits(bits, 0u32);
            }
            if self@ == 0 {
                assert forall|i: int| 0 <= i < 32 implies !bits[i] by {
                    lemma_bit_of_zero(place(i));
                }
            }
        }
        count_zeros(self) == 32
    }

    /// The card's thirty-two bits as one word.
    fn word(&self) -> (word: u32)
        ensures
            word == self@,
    {
        let bits = bits_between(self, 0, 32);
        let word: u32 = bits_value(&bits);
        proof {
            lemma_bits_of_word(card_bits(*self));
            assert forall|p: u32| p < 32 implies bit_at(word, p) == bit_at(self@, p) by {
                assert(place(31 - p) == p);
            }
            lemma_same_bits(word, self@);
        }
        word
    }

    /// Sets the bit at `index` of the array, which is the bit at
    /// `place(index)` of the word.
    fn raise(&mut self, index: usize)
        requires
            index < 32,
        ensures
            final(self)@ == old(self)@ | (1u32 << place(index as int)),
    {
        set_bit(self, index, true);
        proof {
            let before = old(self)@;
            let after = before | (1u32 << place(index as int));
            lemma_bits_of_word(card_bits(*old(self)));
            assert forall|i: int| 0 <= i < 32 implies card_bits(*self)[i] == bit_at(
                after,
                place(i),
            ) by {
                lemma_bit_of_or(before, place(index as int), place(i));
            }
            lemma_word_of_bits(card_bits(*self), after);
        }
    }

    /// Writes the weight of the card's rank to bits 8 to 11.
    pub fn set_rank(&mut self, card: &Card)
        ensures
            final(self)@ == with_weight(old(self)@, card.rank.weight),
    {
        store_be(self, 20, 24, card.rank.weight as u64);
        proof {
            let before = old(self)@;
            let weight = card.rank.weight;
            let after = with_weight(before, weight);
            lemma_bits_of_word(card_bits(*old(self)));
            assert forall|i: int| 0 <= i < 32 implies card_bits(*self)[i] == bit_at(
                after,
                place(i),
            ) by {
                lemma_weight_stored(before, weight, place(i));
            }
            lemma_word_of_bits(card_bits(*self), after);
        }
    }

    /// Writes the prime of the card's rank to bits 0 to 5.
    pub fn set_rank_prime(&mut self, card: &Card)
        ensures
            final(self)@ == with_prime(old(self)@, card.rank.prime),
    {
        store_be(self, 26, 32, card.rank.prime as u64);
        proof {
            let before = old(self)@;
            let prime = card.rank.prime;
            let after = with_prime(before, prime);
            lemma_bits_of_word(card_bits(*old(self)));
            assert forall|i: int| 0 <= i < 32 implies card_bits(*self)[i] == bit_at(
                after,
                place(i),
            ) by {
                lemma_prime_stored(before, prime, place(i));
            }
            lemma_word_of_bits(card_bits(*self), after);
        }
    }

    /// Sets the bit among 12 to 15 that stands for the card's suit.
    pub fn set_suit(&mut self, card: &Card)
        ensures
            final(self)@ == with_suit_flag(old(self)@, card.suit.weight),
    {
        proof {
            lemma_suit_places();
        }
        match card.suit.weight {
            4 => self.raise(19),  // Spades
            3 => self.raise(18),  // Hearts
            2 => self.raise(17),  // Diamonds
            1 => self.raise(16),  // Clubs
            _ => {
                let ghost word = self@;
                assert(word | 0u32 == word) by (bit_vector);
            },
        }
    }

    /// Sets the bit among 16 to 28 that stands for the card's rank.
    pub fn set_rank_flag(&mut self, card: &Card)
        ensures
            final(self)@ == with_rank_flag(old(self)@, card.rank.weight),
    {
        match card.rank.weight {
            12 => self.raise(3),  // Ace
            11 => self.raise(4),  // King
            10 => self.raise(5),  // Queen
            9 => self.raise(6),  // Jack
            8 => self.raise(7),  // Ten
            7 => self.raise(8),  // Nine
            6 => self.raise(9),  // Eight
            5 => self.raise(10),  // Seven
            4 => self.raise(11),  // Six
            3 => self.raise(12),  // Five
            2 => self.raise(13),  // Four
            1 => self.raise(14),  // Three
            0 => self.raise(15),  // Two
            _ => {
                let ghost word = self@;
                assert(word | 0u32 == word) by (bit_vector);
            },
        }
    }
}

proof fn lemma_weight_stored(before: u32, weight: u32, p: u32)
    by (bit_vector)
    requires
        p < 32,
    ensures
        bit_at(with_weight(before, weight), p) == (if 8 <= p < 12 {
            ((weight as u64) >> ((p - 8) as u64)) & 1 == 1
        } else {
            bit_at(before, p)
        }),
{
}

proof fn lemma_prime_stored(before: u32, prime: u32, p: u32)
    by (bit_vector)
    requires
        p < 32,
    ensures
        bit_at(with_prime(before, prime), p) == (if p < 6 {
            ((prime as u64) >> (p as u64)) & 1 == 1
        } else {
            bit_at(before, p)
        }),
{
}

proof fn lemma_word_stored(integer: u64, p: u32)
    by (bit_vector)
    requires
        p < 32,
    ensures
        bit_at((integer & 0xffff_ffff) as u32, p) == ((integer >> (p as u64)) & 1 == 1),
{
}

proof fn lemma_suit_places()
    by (bit_vector)
    ensures
        1u32 << 12u32 == 0x1000,
        1u32 << 13u32 == 0x2000,
        1u32 << 14u32 == 0x4000,
        1u32 << 15u32 == 0x8000,
{
}

proof fn lemma_bit_of_upper_half(word: u32, p: u32)
    by (bit_vector)
    requires
        p < 32,
    ensures
        bit_at(word >> 16, p) == (p < 16 && bit_at(word, (p + 16) as u32)),
{
}

proof fn lemma_bit_of_suit_field(word: u32, p: u32)
    by (bit_vector)
    requires
        p < 32,
    ensures
        bit_at((word >> 12) & 0xf, p) == (p < 4 && bit_at(word, (p + 12) as u32)),
{
}

proof fn lemma_bit_of_buffer(b0: u8, b1: u8, b2: u8, b3: u8, p: u32)
    by (bit_vector)
    requires
        p < 32,
    ensures
        bit_at((b0 as u32) << 24 | (b1 as u32) << 16 | (b2 as u32) << 8 | b3 as u32, p) == (if 24
            <= p {
            (b0 >> ((p - 24) as u8)) & 1 == 1
        } else if 16 <= p {
            (b1 >> ((p - 16) as u8)) & 1 == 1
        } else if 8 <= p {
            (b2 >> ((p - 8) as u8)) & 1 == 1
        } else {
            (b3 >> (p as u8)) & 1 == 1
        }),
{
}

impl Clone for BitCard {
    fn clone(&self) -> (card: BitCard)
        ensures
            card@ == self@,
    {
        let word: u32 = self.word();
        let card = BitCard::new_from_u64(word as u64);
        proof {
            assert(((word as u64) & 0xffff_ffff) as u32 == word) by (bit_vector);
        }
        card
    }
}

impl PartialEq for BitCard {
    fn eq(&self, other: &BitCard) -> (equal: bool) {
        self.word() == other.word()
    }
}

impl PartialEqSpecImpl for BitCard {
    open spec fn obeys_eq_spec() -> bool {
        true
    }

    /// Two cards are equal when their thirty-two bits are.
    open spec fn eq_spec(&self, other: &BitCard) -> bool {
        self@ == other@
    }
}

impl PartialOrd for BitCard {
    fn partial_cmp(&self, other: &BitCard) -> (order: Option<Ordering>) {
        let mine: u32 = self.word();
        let theirs: u32 = other.word();
        if mine < theirs {
            Some(Ordering::Less)
        } else if mine > theirs {
            Some(Ordering::Greater)
        } else {
            Some(Ordering::Equal)
        }
    }
}

impl PartialOrdSpecImpl for BitCard {
    open spec fn obeys_partial_cmp_spec() -> bool {
        true
    }

    /// Cards are ordered as their words are.
    open spec fn partial_cmp_spec(&self, other: &BitCard) -> Option<Ordering> {
        if self@ < other@ {
            Some(Ordering::Less)
        } else if self@ > other@ {
            Some(Ordering::Greater)
        } else {
            Some(Ordering::Equal)
        }
    }
}

impl Default for BitCard {
    /// The blank card: every bit zero.
    fn default() -> (card: BitCard)
        ensures
            card@ == 0,
    {
        let card = zeroed();
        proof {
            assert forall|i: int| 0 <= i < 32 implies card_bits(card)[i] == bit_at(
                0u32,
                place(i),
            ) by {
                lemma_bit_of_zero(place(i));
            }
            lemma_word_of_bits(card_bits(card), 0u32);
        }
        card
    }
}

} // verus!
