//! Password generation by an ordered chain of pluggable strategies.
//!
//! A pipeline owns its strategies in insertion order. One generation run
//! starts from the empty string and hands the accumulated value through
//! every strategy in turn, together with one random source that the run
//! owns.

pub mod algorithm;
pub mod options;
