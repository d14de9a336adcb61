//! Unconditional generation: one batch of `n` samples for every decomposed
//! step, drawn strictly in order from one stream.
use vstd::prelude::*;

verus! {

/// True when every batch of `batches` holds exactly `n` samples.
pub open spec fn all_batches_len<S>(batches: Seq<Vec<S>>, n: nat) -> bool {
    forall|i: int| 0 <= i < batches.len() ==> (#[trigger] batches[i])@.len() == n
}

/// Whether every batch holds exactly `n` samples.
pub fn batches_have_len<S>(batches: &Vec<Vec<S>>, n: usize) -> (r: bool)
    ensures
        r == all_batches_len(batches@, n as nat),
{
    let mut i: usize = 0;
    while i < batches.len()
        invariant
            i <= batches@.len(),
            all_batches_len(batches@.take(i as int), n as nat),
        decreases batches@.len() - i,
    {
        if batches[i].len() != n {
            assert(batches@[i as int]@.len() != n);
            return false;
        }
        assert(batches@.take(i + 1) =~= batches@.take(i as int).push(batches@[i as int]));
        i = i + 1;
    }
    assert(batches@.take(i as int) =~= batches@);
    true
}

/// The progress of one unconditional generation over `steps` decomposed
/// steps, each of which is drawn as a batch of `n` samples.
pub struct SequenceRun<S> {
    steps: usize,
    n: usize,
    batches: Vec<Vec<S>>,
}

impl<S> SequenceRun<S> {
    /// Number of decomposed steps that the sequence will hold.
    pub closed spec fn spec_steps(&self) -> nat {
        self.steps as nat
    }

    /// Sample size of every batch.
    pub closed spec fn spec_n(&self) -> nat {
        self.n as nat
    }

    /// Batches drawn so far, in step order.
    pub closed spec fn spec_batches(&self) -> Seq<Vec<S>> {
        self.batches@
    }

    pub open spec fn wf(&self) -> bool {
        &&& self.spec_batches().len() <= self.spec_steps()
        &&& all_batches_len(self.spec_batches(), self.spec_n())
    }

    /// A run that has drawn nothing yet.
    pub fn new(steps: usize, n: usize) -> (r: Self)
        ensures
            r.wf(),
            r.spec_steps() == steps,
            r.spec_n() == n,
            r.spec_batches() == Seq::<Vec<S>>::empty(),
    {
        SequenceRun { steps, n, batches: Vec::new() }
    }

    pub fn n(&self) -> (r: usize)
        ensures
            r == self.spec_n(),
    {
        self.n
    }

    /// The index of the step to draw next, or `None` once every step is drawn.
    pub fn next_step(&self) -> (r: Option<usize>)
        requires
            self.wf(),
        ensures
            self.spec_batches().len() < self.spec_steps() ==> r == Some(
                self.spec_batches().len() as usize,
            ),
            self.spec_batches().len() == self.spec_steps() ==> r is None,
    {
        if self.batches.len() < self.steps {
            Some(self.batches.len())
        } else {
            None
        }
    }

    /// Appends the batch drawn for the next step.
    pub fn record(&mut self, batch: Vec<S>)
        requires
            old(self).wf(),
            old(self).spec_batches().len() < old(self).spec_steps(),
            batch@.len() == old(self).spec_n(),
        ensures
            final(self).wf(),
            final(self).spec_steps() == old(self).spec_steps(),
            final(self).spec_n() == old(self).spec_n(),
            final(self).spec_batches() == old(self).spec_batches().push(batch),
    {
        self.batches.push(batch);
        assert(self.batches@[self.batches@.len() - 1] == batch);
    }

    /// The finished sequence: one batch of `n` samples per step, in step order.
    pub fn finish(self) -> (r: Vec<Vec<S>>)
        requires
            self.wf(),
            self.spec_batches().len() == self.spec_steps(),
        ensures
            r@ == self.spec_batches(),
            r@.len() == self.spec_steps(),
            all_batches_len(r@, self.spec_n()),
    {
        self.batches
    }
}

} // verus!
