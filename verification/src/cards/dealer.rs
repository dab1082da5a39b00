use crate::cards::pile::Pile;
use vstd::prelude::*;

verus! {

/// A way to shuffle a pile: the cards that come back are the cards that went
/// in, each as often as before, in whatever order.
pub trait Shuffler<T> {
    fn shuffle(pile: &Pile) -> (shuffled: Pile)
        ensures
            shuffled@.to_multiset() == pile@.to_multiset(),
    ;
}

} // verus!
