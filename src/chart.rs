//! Control-chart-gated generation.
//!
//! A run of an X-bar/s control chart beside the data stream, as a state
//! machine. The caller draws every batch from one stream, estimates its
//! parameters, tests them against the chart, and hands the outcome back as a
//! [`ChartEvent`]; [`ChartRun::step`] answers with the next [`ChartAction`].
//!
//! - Baseline: the in-control steps are drawn together; the batch is kept only
//!   when every estimate is in control, and is drawn again otherwise, with no
//!   limit on the number of tries.
//! - Pre-final scan: the steps before the final regime are drawn together. If
//!   one is out of control, the sequence ends with the first such step.
//! - Post-change scan: one step of the final regime at a time, with regime
//!   indices from 1, until a step is out of control.
use vstd::prelude::*;
use crate::error::GenerationError;
use crate::sequence::{all_batches_len, batches_have_len};

verus! {

/// Where a chart run stands.
#[derive(Debug, Clone, Copy, PartialEq, Eq, Structural)]
pub enum ChartPhase {
    Baseline,
    PreFinal,
    PostChange,
    Detected,
    Failed,
}

/// What the caller is asked to do next.
#[derive(Debug, Clone)]
pub enum ChartAction {
    /// Draw a batch for every in-control step, estimate each, and test them all.
    DrawBaseline,
    /// Draw a batch for every step before the final regime, estimate each, and
    /// find the first one out of control.
    DrawPreFinal,
    /// Draw one batch with the final regime's parameters at this index,
    /// estimate it, and test it.
    DrawPostChange(usize),
    /// The chart has signalled: the sequence is complete.
    Done,
    /// The generation failed.
    Abort(GenerationError),
}

/// The outcome of the work that an action asked for.
pub enum ChartEvent<S> {
    /// The in-control batches, and whether every estimate is in control.
    Baseline { batches: Vec<Vec<S>>, all_in_control: bool },
    /// The pre-final batches, and the index of the first one out of control.
    PreFinal { batches: Vec<Vec<S>>, first_violation: Option<usize> },
    /// One post-change batch, and whether its estimate is out of control.
    PostChange { batch: Vec<S>, out_of_control: bool },
    /// Estimation, or the regime lookup, failed.
    Failed(GenerationError),
}

/// The mathematical state of a chart run.
pub struct ChartState<S> {
    /// Sample size of every batch.
    pub n: nat,
    /// Number of in-control steps.
    pub baseline_steps: nat,
    /// Number of steps before the final regime, after the in-control ones.
    pub pre_steps: nat,
    pub phase: ChartPhase,
    /// The output so far.
    pub batches: Seq<Vec<S>>,
    /// Index in the final regime of the post-change step asked for last.
    pub regime_index: nat,
    /// How many baselines were rejected (saturating).
    pub retries: nat,
    /// Out-of-control verdicts of the post-change steps, in order.
    pub post_flags: Seq<bool>,
    /// The pre-final step at which the chart signalled, if it did there.
    pub violation: Option<nat>,
}

/// No verdict in `flags` signals.
pub open spec fn no_signal(flags: Seq<bool>) -> bool {
    forall|j: int| 0 <= j < flags.len() ==> !(#[trigger] flags[j])
}

/// The shape of a completed output.
pub open spec fn detected_shape<S>(s: ChartState<S>) -> bool {
    match s.violation {
        Some(i) => {
            &&& i < s.pre_steps
            &&& s.batches.len() == s.baseline_steps + i + 1
            &&& s.post_flags.len() == 0
        },
        None => {
            &&& s.post_flags.len() > 0
            &&& s.post_flags.last()
            &&& no_signal(s.post_flags.drop_last())
            &&& s.batches.len() == s.baseline_steps + s.pre_steps + s.post_flags.len()
        },
    }
}

/// The invariant of a chart run.
pub open spec fn chart_wf<S>(s: ChartState<S>) -> bool {
    &&& all_batches_len(s.batches, s.n)
    &&& s.retries <= u64::MAX
    &&& s.regime_index <= usize::MAX
    &&& match s.phase {
        ChartPhase::Baseline => {
            &&& s.batches.len() == 0
            &&& s.post_flags.len() == 0
            &&& s.violation is None
        },
        ChartPhase::PreFinal => {
            &&& s.batches.len() == s.baseline_steps
            &&& s.post_flags.len() == 0
            &&& s.violation is None
        },
        ChartPhase::PostChange => {
            &&& s.regime_index >= 1
            &&& s.post_flags.len() + 1 == s.regime_index
            &&& no_signal(s.post_flags)
            &&& s.batches.len() == s.baseline_steps + s.pre_steps + s.post_flags.len()
            &&& s.violation is None
        },
        ChartPhase::Detected => detected_shape(s),
        ChartPhase::Failed => true,
    }
}

/// The event answers the action that the state asked for, in the shape the
/// scenario gives: one batch of `n` samples per step.
pub open spec fn event_fits<S>(s: ChartState<S>, e: ChartEvent<S>) -> bool {
    match e {
        ChartEvent::Failed(_) => s.phase != ChartPhase::Detected && s.phase != ChartPhase::Failed,
        ChartEvent::Baseline { batches, all_in_control: _ } => {
            &&& s.phase == ChartPhase::Baseline
            &&& batches@.len() == s.baseline_steps
            &&& all_batches_len(batches@, s.n)
        },
        ChartEvent::PreFinal { batches, first_violation } => {
            &&& s.phase == ChartPhase::PreFinal
            &&& batches@.len() == s.pre_steps
            &&& all_batches_len(batches@, s.n)
            &&& (first_violation matches Some(i) ==> i < s.pre_steps)
        },
        ChartEvent::PostChange { batch, out_of_control: _ } => {
            &&& s.phase == ChartPhase::PostChange
            &&& batch@.len() == s.n
        },
    }
}

/// The state after an event.
pub open spec fn chart_next<S>(s: ChartState<S>, e: ChartEvent<S>) -> ChartState<S> {
    match e {
        ChartEvent::Failed(_) => ChartState { phase: ChartPhase::Failed, ..s },
        ChartEvent::Baseline { batches, all_in_control } => {
            if all_in_control {
                ChartState { phase: ChartPhase::PreFinal, batches: batches@, ..s }
            } else {
                ChartState {
                    retries: if s.retries < u64::MAX { s.retries + 1 } else { s.retries },
                    ..s
                }
            }
        },
        ChartEvent::PreFinal { batches, first_violation } => match first_violation {
            None => ChartState {
                phase: ChartPhase::PostChange,
                batches: s.batches + batches@,
                regime_index: 1,
                ..s
            },
            Some(i) => ChartState {
                phase: ChartPhase::Detected,
                batches: s.batches + batches@.take(i + 1),
                violation: Some(i as nat),
                ..s
            },
        },
        ChartEvent::PostChange { batch, out_of_control } => {
            if out_of_control {
                ChartState {
                    phase: ChartPhase::Detected,
                    batches: s.batches.push(batch),
                    post_flags: s.post_flags.push(true),
                    ..s
                }
            } else if s.regime_index < usize::MAX {
                ChartState {
                    batches: s.batches.push(batch),
                    post_flags: s.post_flags.push(false),
                    regime_index: s.regime_index + 1,
                    ..s
                }
            } else {
                ChartState {
                    phase: ChartPhase::Failed,
                    batches: s.batches.push(batch),
                    post_flags: s.post_flags.push(false),
                    ..s
                }
            }
        },
    }
}

/// The action that answers an event.
pub open spec fn chart_action_for<S>(s: ChartState<S>, e: ChartEvent<S>, a: ChartAction) -> bool {
    match e {
        ChartEvent::Failed(err) => a == ChartAction::Abort(err),
        ChartEvent::Baseline { batches: _, all_in_control } => {
            if all_in_control {
                a is DrawPreFinal
            } else {
                a is DrawBaseline
            }
        },
        ChartEvent::PreFinal { batches: _, first_violation } => {
            if first_violation is None {
                a == ChartAction::DrawPostChange(1)
            } else {
                a is Done
            }
        },
        ChartEvent::PostChange { batch: _, out_of_control } => {
            if out_of_control {
                a is Done
            } else if s.regime_index < usize::MAX {
                a == ChartAction::DrawPostChange((s.regime_index + 1) as usize)
            } else {
                a matches ChartAction::Abort(GenerationError::IndexRange(_))
            }
        },
    }
}

/// A fresh run, before any draw.
pub open spec fn chart_start<S>(baseline_steps: nat, pre_steps: nat, n: nat) -> ChartState<S> {
    ChartState {
        n,
        baseline_steps,
        pre_steps,
        phase: ChartPhase::Baseline,
        batches: Seq::empty(),
        regime_index: 0,
        retries: 0,
        post_flags: Seq::empty(),
        violation: None,
    }
}

/// The chart run of one generation.
pub struct ChartRun<S> {
    n: usize,
    baseline_steps: usize,
    pre_steps: usize,
    phase: ChartPhase,
    batches: Vec<Vec<S>>,
    regime_index: usize,
    retries: u64,
    post_flags: Ghost<Seq<bool>>,
    violation: Ghost<Option<nat>>,
}

impl<S> View for ChartRun<S> {
    type V = ChartState<S>;

    closed spec fn view(&self) -> ChartState<S> {
        ChartState {
            n: self.n as nat,
            baseline_steps: self.baseline_steps as nat,
            pre_steps: self.pre_steps as nat,
            phase: self.phase,
            batches: self.batches@,
            regime_index: self.regime_index as nat,
            retries: self.retries as nat,
            post_flags: self.post_flags@,
            violation: self.violation@,
        }
    }
}

/// Every event that fits keeps the invariant.
pub proof fn lemma_chart_next_wf<S>(s: ChartState<S>, e: ChartEvent<S>)
    requires
        chart_wf(s),
        event_fits(s, e),
    ensures
        chart_wf(chart_next(s, e)),
{
    let t = chart_next(s, e);
    match e {
        ChartEvent::PreFinal { batches, first_violation } => {
            match first_violation {
                None => {
                    assert forall|i: int| 0 <= i < t.batches.len() implies (#[trigger] t.batches[i])@.len()
                        == t.n by {
                        if i >= s.batches.len() {
                            assert(t.batches[i] == batches@[i - s.batches.len()]);
                        }
                    }
                },
                Some(i) => {
                    assert forall|k: int| 0 <= k < t.batches.len() implies (#[trigger] t.batches[k])@.len()
                        == t.n by {
                        if k >= s.batches.len() {
                            assert(t.batches[k] == batches@[k - s.batches.len()]);
                        }
                    }
                },
            }
        },
        ChartEvent::PostChange { batch, out_of_control } => {
            assert forall|i: int| 0 <= i < t.batches.len() implies (#[trigger] t.batches[i])@.len()
                == t.n by {
                if i < s.batches.len() {
                    assert(t.batches[i] == s.batches[i]);
                }
            }
            if out_of_control {
                assert(t.post_flags.drop_last() == s.post_flags);
            } else {
                assert forall|j: int| 0 <= j < t.post_flags.len() implies !(#[trigger] t.post_flags[j]) by {
                    if j < s.post_flags.len() {
                        assert(t.post_flags[j] == s.post_flags[j]);
                    }
                }
            }
        },
        _ => {},
    }
}

/// The state after a sequence of events, taken in order.
pub open spec fn chart_run<S>(s: ChartState<S>, es: Seq<ChartEvent<S>>) -> ChartState<S>
    decreases es.len(),
{
    if es.len() == 0 {
        s
    } else {
        chart_run(chart_next(s, es[0]), es.drop_first())
    }
}

/// Every event of the sequence fits the state it arrives in.
pub open spec fn trace_fits<S>(s: ChartState<S>, es: Seq<ChartEvent<S>>) -> bool
    decreases es.len(),
{
    es.len() == 0 || (event_fits(s, es[0]) && trace_fits(chart_next(s, es[0]), es.drop_first()))
}

/// Some event of `es` is a baseline whose estimates were all in control and
/// whose batches are `baseline`.
pub open spec fn accepted_baseline<S>(es: Seq<ChartEvent<S>>, baseline: Seq<Vec<S>>) -> bool {
    exists|j: int|
        0 <= j < es.len() && (#[trigger] es[j] matches ChartEvent::Baseline {
            batches,
            all_in_control,
        } && all_in_control && batches@ == baseline)
}

/// The run has got past the baseline and has not failed.
pub open spec fn past_baseline<S>(s: ChartState<S>) -> bool {
    s.phase != ChartPhase::Baseline && s.phase != ChartPhase::Failed
}

proof fn lemma_baseline_kept<S>(s: ChartState<S>, es: Seq<ChartEvent<S>>)
    requires
        chart_wf(s),
        trace_fits(s, es),
    ensures
        ({
            let t = chart_run(s, es);
            &&& chart_wf(t)
            &&& t.n == s.n
            &&& t.baseline_steps == s.baseline_steps
            &&& t.pre_steps == s.pre_steps
            &&& past_baseline(t) ==> {
                &&& t.batches.len() >= s.baseline_steps
                &&& (past_baseline(s) && t.batches.take(s.baseline_steps as int) == s.batches.take(
                    s.baseline_steps as int,
                )) || accepted_baseline(es, t.batches.take(s.baseline_steps as int))
            }
        }),
    decreases es.len(),
{
    if es.len() > 0 {
        let e = es[0];
        let s1 = chart_next(s, e);
        let rest = es.drop_first();
        lemma_chart_next_wf(s, e);
        lemma_baseline_kept(s1, rest);
        let t = chart_run(s1, rest);
        let bs = s.baseline_steps as int;
        if past_baseline(t) {
            if accepted_baseline(rest, t.batches.take(bs)) {
                let j = choose|j: int|
                    0 <= j < rest.len() && (#[trigger] rest[j] matches ChartEvent::Baseline {
                        batches,
                        all_in_control,
                    } && all_in_control && batches@ == t.batches.take(bs));
                assert(es[j + 1] == rest[j]);
            } else {
                if past_baseline(s) {
                    match e {
                        ChartEvent::PreFinal { batches, first_violation } => {
                            match first_violation {
                                None => {
                                    assert(s1.batches.take(bs) =~= s.batches.take(bs));
                                },
                                Some(i) => {
                                    assert(s1.batches.take(bs) =~= s.batches.take(bs));
                                },
                            }
                        },
                        ChartEvent::PostChange { batch, out_of_control } => {
                            assert(s1.batches.take(bs) =~= s.batches.take(bs));
                        },
                        _ => {},
                    }
                } else {
                    assert(s1.batches.take(bs) =~= s1.batches);
                    assert(es[0] == e);
                }
            }
        }
    }
}

/// Baseline acceptance: once a run from the start is past its baseline and
/// has not failed, its output begins with the batches of a baseline event
/// whose estimates were all in control; rejected baselines never appear.
pub proof fn lemma_baseline_in_control<S>(
    baseline_steps: nat,
    pre_steps: nat,
    n: nat,
    es: Seq<ChartEvent<S>>,
)
    requires
        trace_fits(chart_start::<S>(baseline_steps, pre_steps, n), es),
    ensures
        ({
            let t = chart_run(chart_start::<S>(baseline_steps, pre_steps, n), es);
            past_baseline(t) ==> {
                &&& t.batches.len() >= baseline_steps
                &&& accepted_baseline(es, t.batches.take(baseline_steps as int))
            }
        }),
{
    let s0 = chart_start::<S>(baseline_steps, pre_steps, n);
    assert(all_batches_len(s0.batches, s0.n));
    lemma_baseline_kept(s0, es);
}

/// A completed or failed run takes no further event.
pub proof fn lemma_finished_is_final<S>(s: ChartState<S>, es: Seq<ChartEvent<S>>)
    requires
        s.phase == ChartPhase::Detected || s.phase == ChartPhase::Failed,
        trace_fits(s, es),
    ensures
        es.len() == 0,
        chart_run(s, es) == s,
{
    if es.len() > 0 {
        assert(!event_fits(s, es[0]));
    }
}

/// Early termination: when the pre-final scan reports its first violation at
/// index `i`, the output ends with that step, the steps after it are not
/// kept, and the run is complete.
pub proof fn lemma_early_termination<S>(
    s: ChartState<S>,
    batches: Vec<Vec<S>>,
    i: usize,
)
    requires
        chart_wf(s),
        event_fits(s, ChartEvent::PreFinal { batches, first_violation: Some(i) }),
    ensures
        ({
            let t = chart_next(s, ChartEvent::PreFinal { batches, first_violation: Some(i) });
            &&& t.phase == ChartPhase::Detected
            &&& t.batches == s.batches + batches@.take(i + 1)
            &&& t.batches.len() == s.baseline_steps + i + 1
            &&& t.batches.last() == batches@[i as int]
            &&& forall|es: Seq<ChartEvent<S>>| #[trigger]
                trace_fits(t, es) ==> es.len() == 0
        }),
{
    let t = chart_next(s, ChartEvent::PreFinal { batches, first_violation: Some(i) });
    assert forall|es: Seq<ChartEvent<S>>| #[trigger] trace_fits(t, es) implies es.len() == 0 by {
        lemma_finished_is_final(t, es);
    }
}

/// Early termination over a whole run: a pre-final event that reports a
/// violation at index `i` is the last event of the run, and the output is
/// what came before it followed by the pre-final steps up to `i` inclusive.
pub proof fn lemma_early_termination_in_run<S>(s: ChartState<S>, es: Seq<ChartEvent<S>>, j: int)
    requires
        chart_wf(s),
        trace_fits(s, es),
        0 <= j < es.len(),
        es[j] matches ChartEvent::PreFinal { batches: _, first_violation } && first_violation is Some,
    ensures
        j == es.len() - 1,
        chart_run(s, es).phase == ChartPhase::Detected,
        es[j] matches ChartEvent::PreFinal { batches, first_violation } && chart_run(s, es).batches
            == chart_run(s, es.take(j)).batches + batches@.take(first_violation.unwrap() + 1),
    decreases es.len(),
{
    let e = es[0];
    let s1 = chart_next(s, e);
    let rest = es.drop_first();
    lemma_chart_next_wf(s, e);
    if j == 0 {
        lemma_finished_is_final(s1, rest);
        assert(es.take(0) =~= Seq::<ChartEvent<S>>::empty());
    } else {
        assert(rest[j - 1] == es[j]);
        lemma_early_termination_in_run(s1, rest, j - 1);
        assert(es.take(j).drop_first() =~= rest.take(j - 1));
        assert(es.take(j)[0] == e);
    }
}

/// Detection: a run that completes after the pre-final scan found no
/// violation ends with a post-change step whose estimate is out of control,
/// that step is the output's last batch, and no earlier post-change step was
/// out of control.
pub proof fn lemma_detection<S>(s: ChartState<S>, es: Seq<ChartEvent<S>>)
    requires
        chart_wf(s),
        s.phase != ChartPhase::Detected,
        trace_fits(s, es),
        chart_run(s, es).phase == ChartPhase::Detected,
        chart_run(s, es).violation is None,
    ensures
        es.len() > 0,
        es.last() matches ChartEvent::PostChange { batch, out_of_control } && out_of_control
            && batch == chart_run(s, es).batches.last(),
        forall|j: int|
            0 <= j < es.len() - 1 ==> (#[trigger] es[j] matches ChartEvent::PostChange {
                batch: _,
                out_of_control,
            } ==> !out_of_control),
    decreases es.len(),
{
    if es.len() == 0 {
        assert(chart_run(s, es) == s);
    } else {
        let e = es[0];
        let s1 = chart_next(s, e);
        let rest = es.drop_first();
        lemma_chart_next_wf(s, e);
        if s1.phase == ChartPhase::Detected || s1.phase == ChartPhase::Failed {
            lemma_finished_is_final(s1, rest);
            assert(es.last() == e);
        } else {
            lemma_detection(s1, rest);
            assert(es.last() == rest.last());
            assert forall|j: int|
                0 <= j < es.len() - 1 implies (#[trigger] es[j] matches ChartEvent::PostChange {
                batch: _,
                out_of_control,
            } ==> !out_of_control) by {
                if j > 0 {
                    assert(es[j] == rest[j - 1]);
                }
            }
        }
    }
}

/// Determinism of the decisions: two runs with the same scenario shape that
/// are fed the same draws and verdicts end in the same state, with the same
/// output; what the run emits depends on nothing else.
pub proof fn lemma_chart_deterministic<S>(
    s1: ChartState<S>,
    s2: ChartState<S>,
    es1: Seq<ChartEvent<S>>,
    es2: Seq<ChartEvent<S>>,
)
    requires
        s1 == s2,
        es1 == es2,
    ensures
        chart_run(s1, es1) == chart_run(s2, es2),
        chart_run(s1, es1).batches == chart_run(s2, es2).batches,
{
}

impl<S> ChartRun<S> {
    /// A run over `baseline_steps` in-control steps and `pre_steps` steps
    /// before the final regime, with batches of `n` samples, and the first
    /// action, which draws the baseline.
    pub fn new(baseline_steps: usize, pre_steps: usize, n: usize) -> (r: (Self, ChartAction))
        ensures
            r.0@ == chart_start::<S>(baseline_steps as nat, pre_steps as nat, n as nat),
            chart_wf(r.0@),
            r.1 is DrawBaseline,
    {
        let run = ChartRun {
            n,
            baseline_steps,
            pre_steps,
            phase: ChartPhase::Baseline,
            batches: Vec::new(),
            regime_index: 0,
            retries: 0,
            post_flags: Ghost(Seq::empty()),
            violation: Ghost(None),
        };
        (run, ChartAction::DrawBaseline)
    }

    pub fn phase(&self) -> (r: ChartPhase)
        ensures
            r == self@.phase,
    {
        self.phase
    }

    /// How many baselines were drawn and rejected before one was kept.
    pub fn retries(&self) -> (r: u64)
        ensures
            r == self@.retries,
    {
        self.retries
    }

    /// The output so far.
    pub fn batches(&self) -> (r: &Vec<Vec<S>>)
        ensures
            r@ == self@.batches,
    {
        &self.batches
    }

    /// Whether the event answers the action this run asked for last, in the
    /// shape of the scenario.
    pub fn fits(&self, event: &ChartEvent<S>) -> (r: bool)
        ensures
            r == event_fits(self@, *event),
    {
        match event {
            ChartEvent::Failed(_) => self.phase != ChartPhase::Detected && self.phase
                != ChartPhase::Failed,
            ChartEvent::Baseline { batches, all_in_control: _ } => {
                self.phase == ChartPhase::Baseline && batches.len() == self.baseline_steps
                    && batches_have_len(batches, self.n)
            },
            ChartEvent::PreFinal { batches, first_violation } => {
                let index_ok = match first_violation {
                    Some(i) => *i < self.pre_steps,
                    None => true,
                };
                self.phase == ChartPhase::PreFinal && batches.len() == self.pre_steps
                    && batches_have_len(batches, self.n) && index_ok
            },
            ChartEvent::PostChange { batch, out_of_control: _ } => {
                self.phase == ChartPhase::PostChange && batch.len() == self.n
            },
        }
    }

    /// Takes in the outcome of the last action and returns the next one.
    pub fn step(&mut self, event: ChartEvent<S>) -> (a: ChartAction)
        requires
            chart_wf(old(self)@),
            event_fits(old(self)@, event),
        ensures
            final(self)@ == chart_next(old(self)@, event),
            chart_action_for(old(self)@, event, a),
            chart_wf(final(self)@),
    {
        proof {
            lemma_chart_next_wf(self@, event);
        }
        match event {
            ChartEvent::Failed(err) => {
                self.phase = ChartPhase::Failed;
                ChartAction::Abort(err)
            },
            ChartEvent::Baseline { batches, all_in_control } => {
                if all_in_control {
                    self.phase = ChartPhase::PreFinal;
                    self.batches = batches;
                    ChartAction::DrawPreFinal
                } else {
                    if self.retries < u64::MAX {
                        self.retries = self.retries + 1;
                    }
                    ChartAction::DrawBaseline
                }
            },
            ChartEvent::PreFinal { batches, first_violation } => {
                let mut batches = batches;
                match first_violation {
                    None => {
                        self.batches.append(&mut batches);
                        self.phase = ChartPhase::PostChange;
                        self.regime_index = 1;
                        ChartAction::DrawPostChange(1)
                    },
                    Some(i) => {
                        batches.truncate(i + 1);
                        self.batches.append(&mut batches);
                        self.phase = ChartPhase::Detected;
                        self.violation = Ghost(Some(i as nat));
                        ChartAction::Done
                    },
                }
            },
            ChartEvent::PostChange { batch, out_of_control } => {
                self.batches.push(batch);
                self.post_flags = Ghost(self.post_flags@.push(out_of_control));
                if out_of_control {
                    self.phase = ChartPhase::Detected;
                    ChartAction::Done
                } else if self.regime_index < usize::MAX {
                    self.regime_index = self.regime_index + 1;
                    ChartAction::DrawPostChange(self.regime_index)
                } else {
                    self.phase = ChartPhase::Failed;
                    ChartAction::Abort(
                        GenerationError::IndexRange(
                            String::from_str("regime index exceeds the platform's range"),
                        ),
                    )
                }
            },
        }
    }

    /// The completed sequence of a run whose chart has signalled.
    pub fn finish(self) -> (r: Vec<Vec<S>>)
        requires
            chart_wf(self@),
            self@.phase == ChartPhase::Detected,
        ensures
            r@ == self@.batches,
            detected_shape(self@),
    {
        self.batches
    }
}

} // verus!
