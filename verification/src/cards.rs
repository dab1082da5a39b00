pub mod card;
pub mod card_error;
pub mod dealer;
pub mod packs;
pub mod pile;
pub mod rank;
pub mod suit;
