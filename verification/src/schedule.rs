//! The trainer's schedule: which step comes next, and when a report is due.
//!
//! Training visits every sample once per epoch, in dataset order, and the
//! model is updated after each sample. The schedule says nothing about the
//! numbers: it hands out the steps one by one, and the caller does the
//! arithmetic and the printing that each step asks for.

use vstd::arithmetic::div_mod::{lemma_fundamental_div_mod, lemma_fundamental_div_mod_converse};
use vstd::prelude::*;

verus! {

/// Number of passes over the dataset.
pub const EPOCHS: usize = 10000;

/// A sample's detail is reported in every epoch that this number divides.
pub const DETAIL_REPORT_INTERVAL: usize = 2000;

/// An epoch's summary is reported in every epoch that this number divides.
pub const SUMMARY_REPORT_INTERVAL: usize = 1000;

/// Whether the samples of `epoch` are reported in detail.
pub open spec fn detail_due(epoch: usize) -> bool {
    epoch % DETAIL_REPORT_INTERVAL == 0
}

/// Whether the average loss of `epoch` is reported.
pub open spec fn summary_due(epoch: usize) -> bool {
    epoch % SUMMARY_REPORT_INTERVAL == 0
}

/// One step of the training loop.
#[derive(Debug, Clone, Copy, PartialEq, Eq, Structural)]
pub enum Step {
    /// Start of an epoch: the epoch's loss is reset to zero.
    BeginEpoch { epoch: usize },
    /// One sample: predict with the current parameters, add the loss to the
    /// epoch's loss, report the sample if `detail` is set, then update the
    /// parameters.
    Sample { epoch: usize, index: usize, detail: bool },
    /// End of an epoch: report the average loss if `summary` is set.
    EndEpoch { epoch: usize, summary: bool },
}

/// The steps of one epoch over `samples` samples: the start, every sample in
/// dataset order, the end.
pub open spec fn epoch_steps(epoch: usize, samples: usize) -> Seq<Step> {
    seq![Step::BeginEpoch { epoch }] + Seq::new(
        samples as nat,
        |i: int| Step::Sample { epoch, index: i as usize, detail: detail_due(epoch) },
    ) + seq![Step::EndEpoch { epoch, summary: summary_due(epoch) }]
}

/// The steps of the epochs `from`, `from + 1`, ... up to `epochs - 1`.
pub open spec fn steps_between(from: usize, epochs: usize, samples: usize) -> Seq<Step>
    decreases epochs - from,
{
    if from >= epochs {
        Seq::empty()
    } else {
        epoch_steps(from, samples) + steps_between((from + 1) as usize, epochs, samples)
    }
}

/// The whole training run: `epochs` epochs over `samples` samples.
pub open spec fn steps(epochs: usize, samples: usize) -> Seq<Step> {
    steps_between(0, epochs, samples)
}

/// Where the schedule stands inside the current epoch.
#[derive(Debug, Clone, Copy, PartialEq, Eq, Structural)]
enum Phase {
    Begin,
    Sample(usize),
    End,
}

/// A training run in progress: hands out the steps of `steps(epochs,
/// samples)` one at a time.
#[derive(Debug, Clone, Copy, PartialEq, Eq, Structural)]
pub struct Schedule {
    epochs: usize,
    samples: usize,
    epoch: usize,
    phase: Phase,
}

impl Schedule {
    #[verifier::type_invariant]
    spec fn well_formed(&self) -> bool {
        &&& self.epoch <= self.epochs
        &&& self.epoch == self.epochs ==> self.phase is Begin
        &&& self.phase matches Phase::Sample(index) ==> index < self.samples
    }

    /// Number of epochs of the run.
    pub closed spec fn epochs(&self) -> usize {
        self.epochs
    }

    /// Number of samples of the dataset.
    pub closed spec fn samples(&self) -> usize {
        self.samples
    }

    /// Number of steps of the current epoch that were handed out.
    spec fn slot(&self) -> int {
        match self.phase {
            Phase::Begin => 0,
            Phase::Sample(index) => index + 1,
            Phase::End => self.samples + 1,
        }
    }

    /// The steps that are still to come, in order.
    pub closed spec fn remaining(&self) -> Seq<Step> {
        if self.epoch >= self.epochs {
            Seq::empty()
        } else {
            epoch_steps(self.epoch, self.samples).skip(self.slot()) + steps_between(
                (self.epoch + 1) as usize,
                self.epochs,
                self.samples,
            )
        }
    }

    /// A run of `epochs` epochs over `samples` samples, before its first
    /// step.
    pub fn new(epochs: usize, samples: usize) -> (schedule: Schedule)
        ensures
            schedule.epochs() == epochs,
            schedule.samples() == samples,
            schedule.remaining() == steps(epochs, samples),
    {
        Schedule { epochs, samples, epoch: 0, phase: Phase::Begin }
    }

    /// Hands out the next step, or `None` once the run is over.
    pub fn next_step(&mut self) -> (step: Option<Step>)
        ensures
            final(self).epochs() == old(self).epochs(),
            final(self).samples() == old(self).samples(),
            old(self).remaining().len() == 0 ==> step is None && *final(self) == *old(self),
            old(self).remaining().len() > 0 ==> step == Some(old(self).remaining()[0])
                && final(self).remaining() == old(self).remaining().skip(1),
    {
        proof {
            use_type_invariant(&*self);
        }
        if self.epoch >= self.epochs {
            return None;
        }
        let epoch = self.epoch;
        let (step, next_epoch, next_phase) = match self.phase {
            Phase::Begin => {
                let phase = if self.samples > 0 {
                    Phase::Sample(0)
                } else {
                    Phase::End
                };
                (Step::BeginEpoch { epoch }, epoch, phase)
            },
            Phase::Sample(index) => {
                let phase = if index + 1 < self.samples {
                    Phase::Sample(index + 1)
                } else {
                    Phase::End
                };
                let detail = epoch % DETAIL_REPORT_INTERVAL == 0;
                (Step::Sample { epoch, index, detail }, epoch, phase)
            },
            Phase::End => {
                let summary = epoch % SUMMARY_REPORT_INTERVAL == 0;
                (Step::EndEpoch { epoch, summary }, epoch + 1, Phase::Begin)
            },
        };
        *self = Schedule {
            epochs: self.epochs,
            samples: self.samples,
            epoch: next_epoch,
            phase: next_phase,
        };
        Some(step)
    }

    /// Runs the schedule to its end and returns the steps that were still
    /// to come, in order.
    pub fn into_steps(self) -> (steps: Vec<Step>)
        ensures
            steps@ == self.remaining(),
    {
        let mut schedule = self;
        let mut steps: Vec<Step> = Vec::new();
        loop
            invariant
                steps@ + schedule.remaining() == self.remaining(),
            ensures
                steps@ == self.remaining(),
            decreases schedule.remaining().len(),
        {
            match schedule.next_step() {
                Some(step) => steps.push(step),
                None => break ,
            }
        }
        steps
    }
}

/// Whether a step asks for the detail report of its sample.
pub open spec fn reports_detail(step: Step) -> bool {
    step matches Step::Sample { detail, .. } && detail
}

/// Whether a step asks for the summary report of its epoch.
pub open spec fn reports_summary(step: Step) -> bool {
    step matches Step::EndEpoch { summary, .. } && summary
}

/// Number of detail reports that a sequence of steps asks for.
pub open spec fn detail_reports(steps: Seq<Step>) -> nat {
    steps.filter(|step: Step| reports_detail(step)).len()
}

/// Number of summary reports that a sequence of steps asks for.
pub open spec fn summary_reports(steps: Seq<Step>) -> nat {
    steps.filter(|step: Step| reports_summary(step)).len()
}

/// Whether a step belongs to a run of `epochs` epochs over `samples`
/// samples and carries the report flag that its epoch calls for.
pub open spec fn well_timed(step: Step, epochs: usize, samples: usize) -> bool {
    match step {
        Step::BeginEpoch { epoch } => epoch < epochs,
        Step::Sample { epoch, index, detail } => epoch < epochs && index < samples && (detail
            <==> epoch % DETAIL_REPORT_INTERVAL == 0),
        Step::EndEpoch { epoch, summary } => epoch < epochs && (summary <==> epoch
            % SUMMARY_REPORT_INTERVAL == 0),
    }
}

/// Number of epochs among the first `epochs` that are multiples of
/// `interval`.
pub open spec fn due_epochs(epochs: nat, interval: nat) -> nat {
    ((epochs + interval - 1) / (interval as int)) as nat
}

/// `due_epochs` counts the multiples of `interval`: there is none among the
/// first 0 epochs, and epoch `epochs` adds one exactly if `interval` divides
/// it.
pub proof fn lemma_due_epochs(epochs: nat, interval: nat)
    requires
        interval > 0,
    ensures
        due_epochs(0, interval) == 0,
        due_epochs(epochs + 1, interval) == due_epochs(epochs, interval) + if epochs % interval
            == 0 {
            1nat
        } else {
            0
        },
{
    let k = interval as int;
    let q = epochs as int / k;
    let r = epochs as int % k;
    lemma_fundamental_div_mod(epochs as int, k);
    lemma_fundamental_div_mod_converse(k - 1, k, 0, k - 1);
    assert(epochs + k == (q + 1) * k + r) by (nonlinear_arith)
        requires
            epochs == k * q + r,
    ;
    lemma_fundamental_div_mod_converse(epochs + k, k, q + 1, r);
    if r == 0 {
        assert(epochs + k - 1 == q * k + (k - 1)) by (nonlinear_arith)
            requires
                epochs == k * q + r,
                r == 0,
        ;
        lemma_fundamental_div_mod_converse(epochs + k - 1, k, q, k - 1);
    } else {
        assert(epochs + k - 1 == (q + 1) * k + (r - 1)) by (nonlinear_arith)
            requires
                epochs == k * q + r,
        ;
        lemma_fundamental_div_mod_converse(epochs + k - 1, k, q + 1, r - 1);
    }
}

proof fn lemma_filter_keeps_all(steps: Seq<Step>, pred: spec_fn(Step) -> bool)
    requires
        forall|i: int| 0 <= i < steps.len() ==> pred(#[trigger] steps[i]),
    ensures
        steps.filter(pred) == steps,
    decreases steps.len(),
{
    reveal(Seq::filter);
    if steps.len() > 0 {
        lemma_filter_keeps_all(steps.drop_last(), pred);
    }
}

proof fn lemma_epoch_reports(epoch: usize, samples: usize)
    ensures
        detail_reports(epoch_steps(epoch, samples)) == if detail_due(epoch) {
            samples as nat
        } else {
            0
        },
        summary_reports(epoch_steps(epoch, samples)) == if summary_due(epoch) {
            1nat
        } else {
            0
        },
{
    let begin = seq![Step::BeginEpoch { epoch }];
    let middle = Seq::new(
        samples as nat,
        |i: int| Step::Sample { epoch, index: i as usize, detail: detail_due(epoch) },
    );
    let end = seq![Step::EndEpoch { epoch, summary: summary_due(epoch) }];
    let detail = |step: Step| reports_detail(step);
    let summary = |step: Step| reports_summary(step);
    Seq::filter_distributes_over_add(begin + middle, end, detail);
    Seq::filter_distributes_over_add(begin, middle, detail);
    Seq::filter_distributes_over_add(begin + middle, end, summary);
    Seq::filter_distributes_over_add(begin, middle, summary);
    begin.lemma_all_neg_filter_empty(detail);
    end.lemma_all_neg_filter_empty(detail);
    begin.lemma_all_neg_filter_empty(summary);
    middle.lemma_all_neg_filter_empty(summary);
    if detail_due(epoch) {
        lemma_filter_keeps_all(middle, detail);
    } else {
        middle.lemma_all_neg_filter_empty(detail);
    }
    if summary_due(epoch) {
        lemma_filter_keeps_all(end, summary);
    } else {
        end.lemma_all_neg_filter_empty(summary);
    }
}

proof fn lemma_reports_between(from: usize, epochs: usize, samples: usize)
    requires
        from <= epochs,
    ensures
        detail_reports(steps_between(from, epochs, samples)) == (due_epochs(
            epochs as nat,
            DETAIL_REPORT_INTERVAL as nat,
        ) - due_epochs(from as nat, DETAIL_REPORT_INTERVAL as nat)) * samples,
        summary_reports(steps_between(from, epochs, samples)) == due_epochs(
            epochs as nat,
            SUMMARY_REPORT_INTERVAL as nat,
        ) - due_epochs(from as nat, SUMMARY_REPORT_INTERVAL as nat),
    decreases epochs - from,
{
    let all = due_epochs(epochs as nat, DETAIL_REPORT_INTERVAL as nat);
    let upto = due_epochs(from as nat, DETAIL_REPORT_INTERVAL as nat);
    if from < epochs {
        let next = (from + 1) as usize;
        let head = epoch_steps(from, samples);
        let tail = steps_between(next, epochs, samples);
        lemma_epoch_reports(from, samples);
        lemma_reports_between(next, epochs, samples);
        Seq::filter_distributes_over_add(head, tail, |step: Step| reports_detail(step));
        Seq::filter_distributes_over_add(head, tail, |step: Step| reports_summary(step));
        lemma_due_epochs(from as nat, DETAIL_REPORT_INTERVAL as nat);
        lemma_due_epochs(from as nat, SUMMARY_REPORT_INTERVAL as nat);
        let after = due_epochs(next as nat, DETAIL_REPORT_INTERVAL as nat);
        let here = if detail_due(from) {
            1int
        } else {
            0
        };
        assert((all - upto) * samples == (all - after) * samples + here * samples)
            by (nonlinear_arith)
            requires
                after == upto + here,
        ;
    }
}

proof fn lemma_steps_between_len(from: usize, epochs: usize, samples: usize)
    requires
        from <= epochs,
    ensures
        steps_between(from, epochs, samples).len() == (epochs - from) * (samples + 2),
    decreases epochs - from,
{
    if from < epochs {
        lemma_steps_between_len((from + 1) as usize, epochs, samples);
        assert((epochs - from) * (samples + 2) == (epochs - (from + 1)) * (samples + 2) + (samples
            + 2)) by (nonlinear_arith);
    } else {
        assert((epochs - from) * (samples + 2) == 0) by (nonlinear_arith)
            requires
                from == epochs,
        ;
    }
}

proof fn lemma_step_between_at(from: usize, epochs: usize, samples: usize, epoch: usize, slot: int)
    requires
        from <= epoch < epochs,
        0 <= slot < samples + 2,
    ensures
        0 <= (epoch - from) * (samples + 2) + slot < steps_between(from, epochs, samples).len(),
        steps_between(from, epochs, samples)[(epoch - from) * (samples + 2) + slot] == epoch_steps(
            epoch,
            samples,
        )[slot],
    decreases epoch - from,
{
    let width = samples + 2;
    lemma_steps_between_len(from, epochs, samples);
    if from < epoch {
        lemma_step_between_at((from + 1) as usize, epochs, samples, epoch, slot);
        assert((epoch - from) * width == (epoch - (from + 1)) * width + width)
            by (nonlinear_arith);
    } else {
        assert((epoch - from) * width == 0) by (nonlinear_arith)
            requires
                from == epoch,
        ;
    }
}

proof fn lemma_steps_between_well_timed(from: usize, epochs: usize, samples: usize, k: int)
    requires
        0 <= k < steps_between(from, epochs, samples).len(),
    ensures
        well_timed(steps_between(from, epochs, samples)[k], epochs, samples),
    decreases epochs - from,
{
    if from < epochs {
        if k >= samples + 2 {
            lemma_steps_between_well_timed((from + 1) as usize, epochs, samples, k - (samples + 2));
        }
    }
}

/// A run of `epochs` epochs over `samples` samples has `samples + 2` steps
/// per epoch.
pub proof fn lemma_steps_len(epochs: usize, samples: usize)
    ensures
        steps(epochs, samples).len() == epochs * (samples + 2),
{
    lemma_steps_between_len(0, epochs, samples);
}

/// The steps of epoch `epoch` stand together in the run, in the order of
/// `epoch_steps`, after the steps of all earlier epochs: every sample is
/// visited once per epoch, in dataset order.
pub proof fn lemma_step_at(epochs: usize, samples: usize, epoch: usize, slot: int)
    requires
        epoch < epochs,
        0 <= slot < samples + 2,
    ensures
        0 <= epoch * (samples + 2) + slot < steps(epochs, samples).len(),
        steps(epochs, samples)[epoch * (samples + 2) + slot] == epoch_steps(epoch, samples)[slot],
{
    lemma_step_between_at(0, epochs, samples, epoch, slot);
}

/// Every step of a run lies inside the run, and asks for a report exactly
/// when its epoch is a multiple of the report's interval.
pub proof fn lemma_steps_well_timed(epochs: usize, samples: usize)
    ensures
        forall|k: int|
            0 <= k < steps(epochs, samples).len() ==> well_timed(
                #[trigger] steps(epochs, samples)[k],
                epochs,
                samples,
            ),
{
    assert forall|k: int| 0 <= k < steps(epochs, samples).len() implies well_timed(
        #[trigger] steps(epochs, samples)[k],
        epochs,
        samples,
    ) by {
        lemma_steps_between_well_timed(0, epochs, samples, k);
    }
}

/// A run reports the summary of every epoch that is a multiple of
/// `SUMMARY_REPORT_INTERVAL`, once.
pub proof fn lemma_summary_reports(epochs: usize, samples: usize)
    ensures
        summary_reports(steps(epochs, samples)) == due_epochs(
            epochs as nat,
            SUMMARY_REPORT_INTERVAL as nat,
        ),
{
    lemma_reports_between(0, epochs, samples);
}

/// A run reports every sample in detail in every epoch that is a multiple
/// of `DETAIL_REPORT_INTERVAL`, once.
pub proof fn lemma_detail_reports(epochs: usize, samples: usize)
    ensures
        detail_reports(steps(epochs, samples)) == due_epochs(
            epochs as nat,
            DETAIL_REPORT_INTERVAL as nat,
        ) * samples,
{
    lemma_reports_between(0, epochs, samples);
}

} // verus!
