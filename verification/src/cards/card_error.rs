use vstd::prelude::*;

verus! {

/// What can go wrong when a card is asked for.
#[derive(Clone, Copy, Debug, PartialEq, Eq, Structural, Hash)]
pub enum CardError {
    /// The text given does not name one of the fifty-two cards.
    InvalidCard,
}

} // verus!
