//! Methods: functions that belong to a type.

pub mod definition;
