//! The strategy contract, the random source and the randomized target length.

use rand::rngs::ThreadRng;
use rand::Rng;
use vstd::prelude::*;

verus! {

/// The random source of one generation run: `rand::rngs::ThreadRng`.
/// Its state is not modelled; nothing is known of a value of this type.
#[verifier::external_type_specification]
#[verifier::external_body]
pub struct ExThreadRng(rand::rngs::ThreadRng);

/// One generation strategy: given its position in the pipeline, the value
/// accumulated so far and the run's random source, it produces the next
/// accumulated value.
pub trait Generator {
    /// The outputs that this strategy admits at position `sequence_number`
    /// on the accumulated value `initial_value`. A strategy that says
    /// nothing admits every string.
    open spec fn admits(
        &self,
        sequence_number: usize,
        initial_value: Seq<char>,
        next_value: Seq<char>,
    ) -> bool {
        true
    }

    /// Produces the next accumulated value. A strategy always succeeds.
    fn generate(&self, sequence_number: usize, initial_value: String, rng: &mut ThreadRng) -> (next_value: String)
        ensures
            self.admits(sequence_number, initial_value@, next_value@),
    ;
}

/// `rand::thread_rng`: the calling thread's random source, seeded by the
/// system on first use. Nothing is claimed of the source that comes back.
/// The call panics where the system's own source cannot be read, which no
/// argument decides.
pub assume_specification[ rand::thread_rng ]() -> (rng: ThreadRng);

/// `Rng::gen_range` on the half-open range from zero to `bound`: some
/// number below `bound`. Which one depends on the state of `rng`, so no
/// more is claimed. The call panics on an empty range, which `bound > 0`
/// rules out.
#[verifier::external_body]
pub(crate) fn sample_below(rng: &mut ThreadRng, bound: usize) -> (sample: usize)
    requires
        bound > 0,
    ensures
        sample < bound,
{
    rng.gen_range(0..bound)
}

/// The shortest target length for an average: a quarter below it.
pub open spec fn shortest_length(average_length: usize) -> int {
    average_length - average_length / 4
}

/// The longest target length for an average: a quarter above it, or the
/// largest `usize` where that does not fit.
pub open spec fn longest_length(average_length: usize) -> int {
    if average_length + average_length / 4 <= usize::MAX {
        average_length + average_length / 4
    } else {
        usize::MAX as int
    }
}

/// How many samples the window around an average distinguishes: one for
/// each step from a quarter below the average to a quarter above it.
pub open spec fn length_choices(average_length: usize) -> int {
    2 * (average_length / 4) + 1
}

/// The target length that belongs to one sample: the shortest length plus
/// the sample, held at the largest `usize`.
pub open spec fn length_for_sample(average_length: usize, sample: usize) -> int {
    if shortest_length(average_length) + sample <= usize::MAX {
        shortest_length(average_length) + sample
    } else {
        usize::MAX as int
    }
}

/// The number of samples to draw from for `average_length`.
pub fn choices_for(average_length: usize) -> (choices: usize)
    ensures
        choices == length_choices(average_length),
        choices > 0,
{
    2 * (average_length / 4) + 1
}

/// The target length for `average_length` once the sample is drawn.
pub fn length_from_sample(average_length: usize, sample: usize) -> (length: usize)
    ensures
        length == length_for_sample(average_length, sample),
        sample < length_choices(average_length) ==> shortest_length(average_length) <= length
            <= longest_length(average_length),
{
    let shortest: usize = average_length - average_length / 4;
    shortest.saturating_add(sample)
}

/// A target length around `average_length`: one sample is drawn from `rng`,
/// uniformly among `length_choices(average_length)`, and the length that
/// belongs to it is returned. It lies between a quarter below the average
/// and a quarter above it, whatever the state of `rng` was.
pub fn calculate_string_length(average_length: usize, rng: &mut ThreadRng) -> (length: usize)
    ensures
        exists|sample: usize|
            sample < length_choices(average_length) && length == #[trigger] length_for_sample(
                average_length,
                sample,
            ),
        shortest_length(average_length) <= length <= longest_length(average_length),
{
    let sample = sample_below(rng, choices_for(average_length));
    length_from_sample(average_length, sample)
}

/// The window lies around the average: the average itself is among the
/// target lengths, it belongs to the middle sample, and a larger sample
/// never gives a shorter length.
pub proof fn lemma_window_lies_around_average(average_length: usize, smaller: usize, larger: usize)
    requires
        smaller <= larger,
    ensures
        shortest_length(average_length) <= average_length <= longest_length(average_length),
        average_length / 4 < length_choices(average_length),
        length_for_sample(average_length, average_length / 4) == average_length,
        length_for_sample(average_length, smaller) <= length_for_sample(average_length, larger),
{
}

} // verus!
