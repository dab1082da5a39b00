pub mod alt;
pub mod bit_card;
pub mod bits;
pub mod layout;
