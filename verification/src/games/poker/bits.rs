use vstd::prelude::*;

verus! {

/// Whether the bit at position `p` of `word` is set; position 0 is the least
/// significant bit.
pub open spec fn bit_at(word: u32, p: u32) -> bool {
    (word >> p) & 1 == 1
}

/// The position in a 32-bit word of the bit that a bit array holds at index
/// `i`: the array starts with the most significant bit.
pub open spec fn place(i: int) -> u32 {
    (31 - i) as u32
}

/// The word whose most significant `n` bits are the first `n` of `bits`, and
/// whose other bits are zero.
pub open spec fn word_upto(bits: Seq<bool>, n: nat) -> u32
    decreases n,
{
    if n == 0 {
        0
    } else {
        let rest = word_upto(bits, (n - 1) as nat);
        if bits[n - 1] {
            rest | (1u32 << place(n - 1))
        } else {
            rest
        }
    }
}

/// The 32-bit word that thirty-two bits spell, most significant bit first.
pub open spec fn word_of(bits: Seq<bool>) -> u32 {
    word_upto(bits, 32)
}

/// Setting one bit of a word sets that bit and leaves the others.
pub proof fn lemma_bit_of_or(word: u32, p: u32, q: u32)
    by (bit_vector)
    requires
        p < 32,
        q < 32,
    ensures
        bit_at(word | (1u32 << p), q) == (q == p || bit_at(word, q)),
{
}

/// The word 0 has no bit set.
pub proof fn lemma_bit_of_zero(q: u32)
    by (bit_vector)
    requires
        q < 32,
    ensures
        !bit_at(0u32, q),
{
}

proof fn lemma_word_upto_bit(bits: Seq<bool>, n: nat, i: int)
    requires
        n <= 32,
        0 <= i < 32,
    ensures
        bit_at(word_upto(bits, n), place(i)) == (i < n && bits[i]),
    decreases n,
{
    if n == 0 {
        lemma_bit_of_zero(place(i));
    } else {
        lemma_word_upto_bit(bits, (n - 1) as nat, i);
        if bits[n - 1] {
            lemma_bit_of_or(word_upto(bits, (n - 1) as nat), place(n - 1), place(i));
        }
    }
}

/// Each bit of the word that thirty-two bits spell is the bit it was spelled
/// with.
pub proof fn lemma_bits_of_word(bits: Seq<bool>)
    ensures
        forall|i: int| 0 <= i < 32 ==> bit_at(word_of(bits), #[trigger] place(i)) == bits[i],
{
    assert forall|i: int| 0 <= i < 32 implies bit_at(word_of(bits), #[trigger] place(i))
        == bits[i] by {
        lemma_word_upto_bit(bits, 32, i);
    }
}

proof fn lemma_shift_ends(a: u32)
    by (bit_vector)
    ensures
        a >> 32u32 == 0,
        a >> 0u32 == a,
{
}

proof fn lemma_shift_step(a: u32, b: u32, k: u32)
    by (bit_vector)
    requires
        k < 32,
        a >> ((k + 1) as u32) == b >> ((k + 1) as u32),
        bit_at(a, k) == bit_at(b, k),
    ensures
        a >> k == b >> k,
{
}

proof fn lemma_same_upper_bits(a: u32, b: u32, k: u32)
    requires
        k <= 32,
        forall|p: u32| p < 32 ==> bit_at(a, p) == bit_at(b, p),
    ensures
        a >> k == b >> k,
    decreases 32 - k,
{
    if k == 32 {
        lemma_shift_ends(a);
        lemma_shift_ends(b);
    } else {
        lemma_same_upper_bits(a, b, (k + 1) as u32);
        lemma_shift_step(a, b, k);
    }
}

/// Two words with the same thirty-two bits are the same word.
pub proof fn lemma_same_bits(a: u32, b: u32)
    requires
        forall|p: u32| p < 32 ==> bit_at(a, p) == bit_at(b, p),
    ensures
        a == b,
{
    lemma_same_upper_bits(a, b, 0);
    lemma_shift_ends(a);
    lemma_shift_ends(b);
}

/// Thirty-two bits that are the bits of `word`, most significant first, spell
/// `word`.
pub proof fn lemma_word_of_bits(bits: Seq<bool>, word: u32)
    requires
        forall|i: int| 0 <= i < 32 ==> bits[i] == bit_at(word, place(i)),
    ensures
        word_of(bits) == word,
{
    let spelled = word_of(bits);
    assert forall|p: u32| p < 32 implies bit_at(spelled, p) == bit_at(word, p) by {
        lemma_word_upto_bit(bits, 32, 31 - p);
    }
    lemma_same_bits(spelled, word);
}

/// How many of the first `n` bits are zero.
pub open spec fn zeros_upto(bits: Seq<bool>, n: nat) -> nat
    decreases n,
{
    if n == 0 {
        0
    } else {
        zeros_upto(bits, (n - 1) as nat) + if bits[n - 1] {
            0nat
        } else {
            1nat
        }
    }
}

/// At most `n` of the first `n` bits are zero, and all of them are only when
/// none is set.
pub proof fn lemma_zeros_upto(bits: Seq<bool>, n: nat)
    ensures
        zeros_upto(bits, n) <= n,
        zeros_upto(bits, n) == n <==> forall|i: int| 0 <= i < n ==> !bits[i],
    decreases n,
{
    if n > 0 {
        lemma_zeros_upto(bits, (n - 1) as nat);
    }
}

/// Whether `value` is the number that a run of bits spells, most significant
/// bit first: every bit of the run is a bit of `value`, the last of them its
/// lowest, and `value` has no other bit set.
pub open spec fn spells(bits: Seq<bool>, value: u32) -> bool {
    forall|p: u32|
        p < 32 ==> #[trigger] bit_at(value, p) == (p < bits.len() && bits[bits.len() - 1 - p])
}

proof fn lemma_bit_of_shifted_in(value: u32, bit: bool, p: u32)
    by (bit_vector)
    requires
        p < 32,
    ensures
        bit_at(
            (value << 1) | (if bit {
                1u32
            } else {
                0u32
            }),
            p,
        ) == (if p == 0 {
            bit
        } else {
            bit_at(value, (p - 1) as u32)
        }),
{
}

/// The number that the bits spell, most significant bit first.
pub fn bits_value(bits: &Vec<bool>) -> (value: u32)
    requires
        bits@.len() <= 32,
    ensures
        spells(bits@, value),
{
    let mut value: u32 = 0;
    let mut j: usize = 0;
    proof {
        assert forall|p: u32| p < 32 implies !bit_at(0u32, p) by {
            lemma_bit_of_zero(p);
        }
    }
    while j < bits.len()
        invariant
            j <= bits@.len() <= 32,
            spells(bits@.take(j as int), value),
        decreases bits@.len() - j,
    {
        let ghost before = value;
        let bit: bool = bits[j];
        value = (value << 1) | (if bit {
            1
        } else {
            0
        });
        j += 1;
        proof {
            let run = bits@.take(j as int);
            assert forall|p: u32| p < 32 implies #[trigger] bit_at(value, p) == (p < run.len()
                && run[run.len() - 1 - p]) by {
                lemma_bit_of_shifted_in(before, bit, p);
            }
        }
    }
    value
}

} // verus!
