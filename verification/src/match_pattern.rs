//! Patterns: taking values apart with `let`, `match` and `if let`.

pub mod all_patterns;
pub mod if_let;
pub mod option;
