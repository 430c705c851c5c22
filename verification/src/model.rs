//! The vocabulary of the dumps: the words that their records are written in.

pub mod bgs;
pub mod body;
pub mod filter;
pub mod powerplay;
pub mod station;
