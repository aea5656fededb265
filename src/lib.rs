//! Synonymous and nonsynonymous site and substitution counts for aligned
//! protein-coding sequences, by the Nei-Gojobori method.
//!
//! Counts are exact: they are returned as whole multiples of
//! `count::COUNT_SCALE`, never rounded.

pub mod convert;
pub mod count;
pub mod genetic_code;
pub mod mutation;
pub mod notation;
pub mod parser;
pub mod sequence;
