//! A strategy that appends one word of a list, chosen at random.

use crate::algorithm::generator::{sample_below, Generator};
use rand::rngs::ThreadRng;
use vstd::prelude::*;
use vstd::string::StringExecFns;

verus! {

/// Appends one of its words to the accumulated value. Which one is drawn
/// from the run's random source; the position in the pipeline plays no
/// part. Without words the value passes through unchanged.
pub struct WordPicker {
    words: Vec<String>,
}

impl WordPicker {
    /// The words to choose from.
    pub closed spec fn view(&self) -> Seq<Seq<char>> {
        self.words.deep_view()
    }

    /// A picker over `words`.
    pub fn new(words: Vec<String>) -> (picker: Self)
        ensures
            picker@ == words.deep_view(),
    {
        Self { words }
    }
}

impl Generator for WordPicker {
    open spec fn admits(
        &self,
        sequence_number: usize,
        initial_value: Seq<char>,
        next_value: Seq<char>,
    ) -> bool {
        if self@.len() == 0 {
            next_value == initial_value
        } else {
            exists|i: int| 0 <= i < self@.len() && next_value == initial_value + #[trigger] self@[i]
        }
    }

    fn generate(&self, sequence_number: usize, initial_value: String, rng: &mut ThreadRng) -> (next_value: String) {
        if self.words.len() == 0 {
            initial_value
        } else {
            let index = sample_below(rng, self.words.len());
            let next_value = initial_value.concat(self.words[index].as_str());
            proof {
                assert(self@[index as int] == self.words@[index as int]@);
            }
            next_value
        }
    }
}

} // verus!
