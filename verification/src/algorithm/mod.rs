//! The generation pipeline and the contract of its strategies.

pub mod algorithm;
pub mod generator;
pub mod word_picker;
