//! A number-guessing game, with the reading of a guess and the rules of
//! the game stated and proved, and small lessons on traits, generics,
//! methods, patterns and borrowing, each with a contract for what it gives.

pub mod guess_number;
pub mod generic_and_traits;
pub mod match_pattern;
pub mod decimal;
pub mod method;
pub mod ownership;
pub mod common_concept;
pub mod compound_type;
