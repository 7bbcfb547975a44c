//! Traits and generics: shared behaviour declared once and implemented by
//! several types, with and without default methods.

pub mod trait_object_test_1;
pub mod trait_object_test_2;
pub mod blanket;
pub mod trait_demo;
pub mod self_demo;
