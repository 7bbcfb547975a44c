//! Compound types: values made of several named parts.

pub mod struct_test;
