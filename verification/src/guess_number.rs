//! The number-guessing game: a hidden secret in `[1, 100]`, lines of text
//! fed one at a time, and a response to each of them.

pub mod text;
pub mod game;
pub mod laws;
