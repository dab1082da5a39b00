use crate::cards::card::Card;
use crate::cards::rank::Rank;
use crate::cards::suit::Suit;
use vstd::arithmetic::div_mod::lemma_fundamental_div_mod_converse;
use vstd::prelude::*;

verus! {

/// Every suit with every rank: the cards of the first suit in the order of
/// the ranks, then those of the second suit, and so on.
pub open spec fn crossed(suits: Seq<Suit>, ranks: Seq<Rank>) -> Seq<Card> {
    Seq::new(
        suits.len() * ranks.len(),
        |k: int|
            Card { rank: ranks[k % (ranks.len() as int)], suit: suits[k / (ranks.len() as int)] },
    )
}

/// Cards in a row.
#[derive(Debug, PartialEq, Eq, Hash)]
pub struct Pile(Vec<Card>);

impl Clone for Pile {
    fn clone(&self) -> (pile: Pile)
        ensures
            pile@ == self@,
    {
        Pile(self.0.clone())
    }
}

impl View for Pile {
    type V = Seq<Card>;

    closed spec fn view(&self) -> Seq<Card> {
        self.0@
    }
}

impl Pile {
    /// Puts a card at the end of the pile.
    pub fn add(&mut self, card: Card)
        ensures
            final(self)@ == old(self)@.push(card),
    {
        self.0.push(card);
    }

    /// The cards of the pile, in order.
    pub fn cards(&self) -> (cards: &Vec<Card>)
        ensures
            cards@ == self@,
    {
        &self.0
    }

    /// Puts every suit with every rank at the end of the pile, suit by suit.
    pub fn fold_in(&mut self, suits: &[Suit], ranks: &[Rank])
        ensures
            final(self)@ == old(self)@ + crossed(suits@, ranks@),
    {
        let ghost width = ranks@.len() as int;
        let mut s: usize = 0;
        while s < suits.len()
            invariant
                s <= suits@.len(),
                width == ranks@.len(),
                self@.len() == old(self)@.len() + s * width,
                forall|k: int| 0 <= k < old(self)@.len() ==> self@[k] == old(self)@[k],
                forall|k: int|
                    0 <= k < s * width ==> self@[old(self)@.len() + k] == crossed(
                        suits@,
                        ranks@,
                    )[k],
            decreases suits@.len() - s,
        {
            let mut r: usize = 0;
            while r < ranks.len()
                invariant
                    s < suits@.len(),
                    r <= ranks@.len(),
                    width == ranks@.len(),
                    self@.len() == old(self)@.len() + s * width + r,
                    forall|k: int| 0 <= k < old(self)@.len() ==> self@[k] == old(self)@[k],
                    forall|k: int|
                        0 <= k < s * width + r ==> self@[old(self)@.len() + k] == crossed(
                            suits@,
                            ranks@,
                        )[k],
                decreases ranks@.len() - r,
            {
                proof {
                    lemma_fundamental_div_mod_converse(s * width + r, width, s as int, r as int);
                    assert(s * width + r < suits@.len() * width) by (nonlinear_arith)
                        requires
                            s < suits@.len(),
                            r < width,
                    ;
                }
                self.add(Card::new(ranks[r], suits[s]));
                r += 1;
            }
            s += 1;
            assert((s - 1) * width + width == s * width) by (nonlinear_arith);
        }
    }
}

impl Default for Pile {
    fn default() -> (pile: Pile)
        ensures
            pile@ == Seq::<Card>::empty(),
    {
        Pile(Vec::new())
    }
}

} // verus!
