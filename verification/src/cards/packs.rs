pub mod standard52;

use crate::cards::pile::{crossed, Pile};
use crate::cards::rank::Rank;
use crate::cards::suit::Suit;
use vstd::prelude::*;

verus! {

/// A kind of deck: its suits, its ranks, and the pile that holds each suit
/// with each rank.
pub trait Cardpack {
    /// The suits of the deck, in the deck's order.
    spec fn suit_order() -> Seq<Suit>;

    /// The ranks of the deck, in the deck's order.
    spec fn rank_order() -> Seq<Rank>;

    /// Returns a sorted version of the specific deck in question.
    fn cardpack() -> (pile: Pile)
        ensures
            pile@ == crossed(Self::suit_order(), Self::rank_order()),
    ;

    fn suits() -> (suits: Vec<Suit>)
        ensures
            suits@ == Self::suit_order(),
    ;

    fn ranks() -> (ranks: Vec<Rank>)
        ensures
            ranks@ == Self::rank_order(),
    ;
}

} // verus!
