//! Traits that extend types of other libraries.

pub mod map;
