pub mod holdem;
pub mod lookups;
pub mod vsup_card;
