//! A generated sequence together with the scenario and the seed that made it.
use vstd::prelude::*;
use crate::chart::{ChartPhase, ChartRun, chart_wf, detected_shape};
use crate::sequence::{SequenceRun, all_batches_len};

verus! {

/// The value that seeds the uniform stream of one generation.
pub type Seed = u64;

/// A scenario of type `C`, the seed used, and the sequence of sample batches
/// of type `S` that it produced, one batch per step.
#[derive(Clone, Debug, PartialEq)]
pub struct RandomScenario<C, S> {
    scenario: C,
    seed: Seed,
    random_variables: Vec<Vec<S>>,
}

impl<C, S> RandomScenario<C, S> {
    pub closed spec fn spec_scenario(&self) -> C {
        self.scenario
    }

    pub closed spec fn spec_seed(&self) -> Seed {
        self.seed
    }

    pub closed spec fn spec_rand_vars(&self) -> Seq<Vec<S>> {
        self.random_variables@
    }

    /// Puts the three parts together as they are.
    pub fn new(scenario: C, seed: Seed, random_variables: Vec<Vec<S>>) -> (r: Self)
        ensures
            r.spec_scenario() == scenario,
            r.spec_seed() == seed,
            r.spec_rand_vars() == random_variables@,
    {
        RandomScenario { scenario, seed, random_variables }
    }

    /// The result of a completed unconditional run: one batch of `n` samples
    /// for each decomposed step, in step order.
    pub fn from_sequence_run(scenario: C, seed: Seed, run: SequenceRun<S>) -> (r: Self)
        requires
            run.wf(),
            run.spec_batches().len() == run.spec_steps(),
        ensures
            r.spec_scenario() == scenario,
            r.spec_seed() == seed,
            r.spec_rand_vars() == run.spec_batches(),
            r.spec_rand_vars().len() == run.spec_steps(),
            all_batches_len(r.spec_rand_vars(), run.spec_n()),
    {
        let random_variables = run.finish();
        RandomScenario { scenario, seed, random_variables }
    }

    /// The result of a chart run that has signalled.
    pub fn from_chart_run(scenario: C, seed: Seed, run: ChartRun<S>) -> (r: Self)
        requires
            chart_wf(run@),
            run@.phase == ChartPhase::Detected,
        ensures
            r.spec_scenario() == scenario,
            r.spec_seed() == seed,
            r.spec_rand_vars() == run@.batches,
            r.spec_rand_vars().len() > 0,
            all_batches_len(r.spec_rand_vars(), run@.n),
    {
        let ghost state = run@;
        let random_variables = run.finish();
        proof {
            assert(detected_shape(state));
        }
        RandomScenario { scenario, seed, random_variables }
    }

    /// The sample batches, one per step, in step order.
    pub fn rand_vars(&self) -> (r: &Vec<Vec<S>>)
        ensures
            r@ == self.spec_rand_vars(),
    {
        &self.random_variables
    }

    /// The seed that the sequence was drawn with.
    pub fn get_seed(&self) -> (r: Seed)
        ensures
            r == self.spec_seed(),
    {
        self.seed
    }

    /// The scenario that the sequence was drawn from.
    pub fn scenario(&self) -> (r: &C)
        ensures
            *r == self.spec_scenario(),
    {
        &self.scenario
    }
}

} // verus!
