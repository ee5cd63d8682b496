//! The pipeline: an ordered collection of strategies and one generation run.

use crate::algorithm::generator::{calculate_string_length, Generator};
use vstd::prelude::*;

verus! {

/// The handle by which a pipeline owns one strategy.
pub type GeneratorPtr = Box<dyn Generator>;

/// One stage of a pipeline: the strategy that runs there.
pub struct Stage {
    pub generator: GeneratorPtr,
}

impl Stage {
    /// The outputs that the strategy of this stage admits.
    pub open spec fn admits(
        &self,
        sequence_number: usize,
        initial_value: Seq<char>,
        next_value: Seq<char>,
    ) -> bool {
        self.generator.admits(sequence_number, initial_value, next_value)
    }
}

/// An ordered collection of strategies, run in insertion order.
pub struct Algorithm {
    generators: Vec<Stage>,
}

impl Algorithm {
    /// The strategies in the order in which they run.
    pub closed spec fn view(&self) -> Seq<Stage> {
        self.generators@
    }

    /// Whether `trace` lists the accumulated values of one run: it starts
    /// with the empty string, and each strategy, at its position in the
    /// pipeline, admits the step from one value to the next.
    pub open spec fn is_run(&self, trace: Seq<Seq<char>>) -> bool {
        &&& trace.len() == self@.len() + 1
        &&& trace[0] == Seq::<char>::empty()
        &&& forall|i: int|
            #![trigger self@[i]]
            0 <= i < self@.len() ==> self@[i].admits(i as usize, trace[i], trace[i + 1])
    }

    /// Whether some run of the pipeline ends in `result`.
    pub open spec fn may_generate(&self, result: Seq<char>) -> bool {
        exists|trace: Seq<Seq<char>>| #[trigger] self.is_run(trace) && trace.last() == result
    }

    /// A pipeline without strategies.
    pub fn new() -> (algorithm: Self)
        ensures
            algorithm@ == Seq::<Stage>::empty(),
    {
        Self { generators: Vec::new() }
    }

    /// Adds one strategy behind those already there and hands the pipeline
    /// back for the next call.
    pub fn add_generator(&mut self, generator: GeneratorPtr) -> (algorithm: &mut Self)
        ensures
            algorithm@ == old(self)@.push((Stage { generator })),
            algorithm@.len() == old(self)@.len() + 1,
            algorithm@.drop_last() == old(self)@,
            algorithm@.last() == (Stage { generator }),
            *final(self) == *final(algorithm),
    {
        let stage = Stage { generator };
        let ghost added = stage;
        self.generators.push(stage);
        proof {
            let before = old(self)@;
            vstd::seq::axiom_seq_push_len(before, added);
            vstd::seq::axiom_seq_push_index_same(before, added, before.len() as int);
            assert forall|i: int| 0 <= i < before.len() implies self@.drop_last()[i] == before[i] by {
                vstd::seq::axiom_seq_push_index_different(before, added, i);
            }
            assert(self@.drop_last() =~= before);
        }
        self
    }

    /// One generation run. Without strategies the result is empty and no
    /// random source is taken. Otherwise the run takes the thread's random
    /// source, draws a target length around `average_length` as a capacity
    /// hint, and hands the accumulated value, empty at first, through every
    /// strategy in insertion order, each with its position.
    pub fn generate(&self, average_length: usize) -> (result: String)
        ensures
            self@.len() == 0 ==> result@ == Seq::<char>::empty(),
            self.may_generate(result@),
    {
        if self.generators.is_empty() {
            let result = String::new();
            proof {
                assert(self.is_run(seq![result@]));
            }
            result
        } else {
            let mut random = rand::thread_rng();
            let string_length = calculate_string_length(average_length, &mut random);
            let mut result = String::with_capacity(capacity_hint(string_length));
            let mut iteration: usize = 0;
            let ghost mut trace: Seq<Seq<char>> = seq![result@];
            while iteration < self.generators.len()
                invariant
                    iteration <= self@.len(),
                    trace.len() == iteration + 1,
                    trace[0] == Seq::<char>::empty(),
                    trace.last() == result@,
                    forall|i: int|
                        #![trigger self@[i]]
                        0 <= i < iteration ==> self@[i].admits(i as usize, trace[i], trace[i + 1]),
                decreases self@.len() - iteration,
            {
                let stage = &self.generators[iteration];
                result = stage.generator.generate(iteration, result.clone(), &mut random);
                proof {
                    trace = trace.push(result@);
                }
                iteration += 1;
            }
            proof {
                assert(self.is_run(trace));
            }
            result
        }
    }
}

/// A pipeline without strategies generates the empty string and nothing
/// else.
pub proof fn lemma_empty_pipeline_generates_nothing(algorithm: &Algorithm, result: Seq<char>)
    requires
        algorithm@.len() == 0,
    ensures
        algorithm.may_generate(result) <==> result == Seq::<char>::empty(),
{
    if result == Seq::<char>::empty() {
        assert(algorithm.is_run(seq![result]));
    }
}

/// What a pipeline may generate depends on its strategies and their order
/// alone: however often it has run, the next run goes through the same
/// strategies.
pub proof fn lemma_runs_depend_on_strategies_alone(
    first: &Algorithm,
    second: &Algorithm,
    result: Seq<char>,
)
    requires
        first@ == second@,
    ensures
        first.may_generate(result) == second.may_generate(result),
{
    if first.may_generate(result) {
        let trace = choose|trace: Seq<Seq<char>>| #[trigger]
            first.is_run(trace) && trace.last() == result;
        assert(second.is_run(trace));
    }
    if second.may_generate(result) {
        let trace = choose|trace: Seq<Seq<char>>| #[trigger]
            second.is_run(trace) && trace.last() == result;
        assert(first.is_run(trace));
    }
}

/// A strategy that is added runs last: the longer pipeline generates what
/// the added strategy, at the position behind the others, admits on some
/// value that the shorter pipeline generates.
pub proof fn lemma_added_strategy_runs_last(
    shorter: &Algorithm,
    longer: &Algorithm,
    added: Stage,
    result: Seq<char>,
)
    requires
        longer@ == shorter@.push(added),
    ensures
        longer.may_generate(result) <==> exists|value: Seq<char>|
            shorter.may_generate(value) && #[trigger] added.admits(
                shorter@.len() as usize,
                value,
                result,
            ),
{
    let count = shorter@.len() as int;
    if longer.may_generate(result) {
        let trace = choose|trace: Seq<Seq<char>>| #[trigger]
            longer.is_run(trace) && trace.last() == result;
        let head = trace.drop_last();
        assert forall|i: int| 0 <= i < count implies (#[trigger] shorter@[i]).admits(
            i as usize,
            head[i],
            head[i + 1],
        ) by {
            assert(longer@[i].admits(i as usize, trace[i], trace[i + 1]));
        }
        assert(shorter.is_run(head));
        assert(longer@[count].admits(count as usize, trace[count], trace[count + 1]));
    }
    if exists|value: Seq<char>|
        shorter.may_generate(value) && #[trigger] added.admits(count as usize, value, result) {
        let value = choose|value: Seq<char>|
            shorter.may_generate(value) && #[trigger] added.admits(
                count as usize,
                value,
                result,
            );
        let head = choose|trace: Seq<Seq<char>>| #[trigger]
            shorter.is_run(trace) && trace.last() == value;
        let trace = head.push(result);
        assert forall|i: int| 0 <= i < longer@.len() implies (#[trigger] longer@[i]).admits(
            i as usize,
            trace[i],
            trace[i + 1],
        ) by {
            if i < count {
                assert(shorter@[i].admits(i as usize, head[i], head[i + 1]));
            }
        }
        assert(longer.is_run(trace));
    }
}

/// Order matters: a pipeline of two strategies generates what the second,
/// at position one, admits on a value that the first, at position zero,
/// admits on the empty string.
pub proof fn lemma_two_strategies_run_in_order(
    algorithm: &Algorithm,
    first: Stage,
    second: Stage,
    result: Seq<char>,
)
    requires
        algorithm@ == seq![first, second],
    ensures
        algorithm.may_generate(result) <==> exists|value: Seq<char>|
            first.admits(0, Seq::<char>::empty(), value) && #[trigger] second.admits(
                1,
                value,
                result,
            ),
{
    let start = Seq::<char>::empty();
    if algorithm.may_generate(result) {
        let trace = choose|trace: Seq<Seq<char>>| #[trigger]
            algorithm.is_run(trace) && trace.last() == result;
        assert(algorithm@[0].admits(0, trace[0], trace[1]));
        assert(algorithm@[1].admits(1, trace[1], trace[2]));
    }
    if exists|value: Seq<char>|
        first.admits(0, start, value) && #[trigger] second.admits(1, value, result) {
        let value = choose|value: Seq<char>|
            first.admits(0, start, value) && #[trigger] second.admits(1, value, result);
        let trace = seq![start, value, result];
        assert forall|i: int| 0 <= i < 2 implies (#[trigger] algorithm@[i]).admits(
            i as usize,
            trace[i],
            trace[i + 1],
        ) by {
            if i == 0 {
                assert(algorithm@[0] == first);
            } else {
                assert(algorithm@[1] == second);
            }
        }
        assert(algorithm.is_run(trace));
    }
}

/// Whether no strategy has a choice along `trace`: at each position the
/// strategy there admits, on the value that `trace` holds, the next value
/// of `trace` and no other.
pub open spec fn leaves_no_choice(algorithm: &Algorithm, trace: Seq<Seq<char>>) -> bool {
    forall|i: int, next_value: Seq<char>|
        0 <= i < algorithm@.len() && #[trigger] algorithm@[i].admits(
            i as usize,
            trace[i],
            next_value,
        ) ==> next_value == trace[i + 1]
}

/// Two runs agree up to `position` where the strategies leave no choice
/// along the first.
proof fn lemma_runs_agree(
    algorithm: &Algorithm,
    trace: Seq<Seq<char>>,
    other: Seq<Seq<char>>,
    position: int,
)
    requires
        algorithm.is_run(trace),
        algorithm.is_run(other),
        leaves_no_choice(algorithm, trace),
        0 <= position <= algorithm@.len(),
    ensures
        other[position] == trace[position],
    decreases position,
{
    if position > 0 {
        let i = position - 1;
        lemma_runs_agree(algorithm, trace, other, i);
        assert(algorithm@[i].admits(i as usize, other[i], other[i + 1]));
    }
}

/// Strategies that leave no choice fix the result: where each strategy
/// admits only the step that `trace` takes, every run ends in the last
/// value of `trace`, whatever the average length and the random source.
pub proof fn lemma_strategies_without_choice_fix_the_result(
    algorithm: &Algorithm,
    trace: Seq<Seq<char>>,
    result: Seq<char>,
)
    requires
        algorithm.is_run(trace),
        leaves_no_choice(algorithm, trace),
    ensures
        algorithm.may_generate(result) <==> result == trace.last(),
{
    if algorithm.may_generate(result) {
        let other = choose|other: Seq<Seq<char>>| #[trigger]
            algorithm.is_run(other) && other.last() == result;
        lemma_runs_agree(algorithm, trace, other, algorithm@.len() as int);
    }
}

/// `String::with_capacity`: an empty string with room for `capacity` bytes.
/// The call panics where the capacity is above `isize::MAX`.
pub assume_specification[ String::with_capacity ](capacity: usize) -> (s: String)
    requires
        capacity <= isize::MAX,
    ensures
        s@ == Seq::<char>::empty(),
;

/// The capacity to ask for when `length` bytes are expected: `length`, held
/// at the most that a string can be asked to reserve.
fn capacity_hint(length: usize) -> (capacity: usize)
    ensures
        capacity <= isize::MAX,
        capacity == length || (length > isize::MAX && capacity == isize::MAX),
{
    if length > usize::MAX / 2 {
        usize::MAX / 2
    } else {
        length
    }
}

} // verus!
