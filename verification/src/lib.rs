pub mod cards;
pub mod games;

pub use crate::cards::card::Card;
pub use crate::cards::card_error::CardError;
pub use crate::cards::dealer::Shuffler;
pub use crate::cards::packs::standard52::Standard52;
pub use crate::cards::packs::Cardpack;
pub use crate::cards::pile::Pile;
pub use crate::cards::rank::{
    Rank, ACE, EIGHT, FIVE, FOUR, JACK, KING, NINE, QUEEN, SEVEN, SIX, TEN, THREE, TWO,
};
pub use crate::cards::suit::{Suit, CLUBS, DIAMONDS, HEARTS, SPADES};
pub use crate::games::poker::alt::vsup_card::{VSupCard, VSupSuit, VSupValue};
pub use crate::games::poker::bit_card::{BitCard, FiveBitCards};
