//! A tiny library exposing one operation: add two native unsigned integers
//! and return the sum as its canonical decimal string.
//!
//! The arithmetic and the decimal rendering live here, fully verified; an
//! embedding layer (for instance a foreign-function binding) registers
//! [`sum::sum_as_string`] with whatever host runtime it serves.

pub mod decimal;
pub mod sum;
