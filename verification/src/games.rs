pub mod poker;
