//! The protocol by which scenarios are run: one at a time within a batch,
//! which stops at its first failure; every batch of a run, whatever the
//! others did; and one overall result.
//!
//! The runner decides; its caller performs. The caller asks what to run
//! next, runs that scenario, and hands the verdict back.

use vstd::prelude::*;
use crate::verdict::{Failure, Verdict};

verus! {

/// Where a scenario stands.
#[derive(Clone, Copy, Debug, PartialEq, Eq, Structural)]
pub enum ScenarioState {
    NotRun,
    Running,
    Passed,
    Failed(Failure),
}

/// The state of a batch, as the states of its scenarios in order.
pub struct BatchView {
    /// How many scenarios the batch has.
    pub total: nat,
    /// How many of them have passed; they are the first ones.
    pub passed: nat,
    /// Whether the scenario behind those is running.
    pub running: bool,
    /// The failure of the scenario behind those, if it failed.
    pub failure: Option<Failure>,
}

impl BatchView {
    /// At most one scenario is behind the ones that passed, and it is not
    /// both running and failed.
    pub open spec fn wf(self) -> bool {
        &&& self.passed <= self.total
        &&& (self.running || self.failure is Some) ==> self.passed < self.total
        &&& !(self.running && self.failure is Some)
    }

    /// Where the scenario at position `i` stands.
    pub open spec fn state_of(self, i: int) -> ScenarioState {
        if i < self.passed {
            ScenarioState::Passed
        } else if i == self.passed && self.failure is Some {
            ScenarioState::Failed(self.failure->0)
        } else if i == self.passed && self.running {
            ScenarioState::Running
        } else {
            ScenarioState::NotRun
        }
    }

    /// No scenario of the batch will run any more: one failed, or all
    /// passed.
    pub open spec fn over(self) -> bool {
        self.failure is Some || (self.passed == self.total && !self.running)
    }

    /// Every scenario of the batch passed.
    pub open spec fn succeeded(self) -> bool {
        self.passed == self.total && self.failure is None && !self.running
    }

    /// The batch before anything has run.
    pub open spec fn fresh(total: nat) -> BatchView {
        BatchView { total, passed: 0, running: false, failure: None }
    }

    /// The batch after the scenario that is next has been started; nothing
    /// changes where the batch is over or a scenario is running.
    pub open spec fn started(self) -> BatchView {
        if self.over() || self.running {
            self
        } else {
            BatchView { running: true, ..self }
        }
    }

    /// The batch after the running scenario has ended with `verdict`;
    /// nothing changes where no scenario is running.
    pub open spec fn ended(self, verdict: Verdict) -> BatchView {
        if !self.running {
            self
        } else {
            match verdict {
                Verdict::Passed => BatchView {
                    passed: self.passed + 1,
                    running: false,
                    ..self
                },
                Verdict::Failed(f) => BatchView { running: false, failure: Some(f), ..self },
            }
        }
    }
}

/// What the caller of a batch is to do.
#[derive(Clone, Copy, Debug, PartialEq, Eq, Structural)]
pub enum Step {
    /// Run the scenario at this position and hand its verdict back.
    Run(usize),
    /// Nothing: the batch is over.
    Stop,
}

/// One batch on its way from its first scenario to its end.
#[derive(Clone, Copy, Debug, PartialEq, Eq)]
pub struct BatchRun {
    total: usize,
    passed: usize,
    running: bool,
    failure: Option<Failure>,
}

impl View for BatchRun {
    type V = BatchView;

    closed spec fn view(&self) -> BatchView {
        BatchView {
            total: self.total as nat,
            passed: self.passed as nat,
            running: self.running,
            failure: self.failure,
        }
    }
}

impl BatchRun {
    /// The state can be reached from a fresh batch.
    pub open spec fn wf(&self) -> bool {
        self@.wf()
    }

    /// A batch of `total` scenarios, none of which has run.
    pub fn new(total: usize) -> (r: BatchRun)
        ensures
            r.wf(),
            r@ == BatchView::fresh(total as nat),
    {
        BatchRun { total, passed: 0, running: false, failure: None }
    }

    /// Says what to do next, and counts a scenario that it hands out as
    /// running. While a scenario is running it hands out the same one again.
    pub fn next(&mut self) -> (step: Step)
        requires
            old(self).wf(),
        ensures
            final(self).wf(),
            final(self)@ == old(self)@.started(),
            old(self)@.over() ==> step == Step::Stop,
            !old(self)@.over() ==> step == Step::Run(old(self)@.passed as usize),
    {
        if self.failure.is_some() || (self.passed == self.total && !self.running) {
            Step::Stop
        } else {
            self.running = true;
            Step::Run(self.passed)
        }
    }

    /// Takes the verdict of the scenario that is running.
    pub fn record(&mut self, verdict: Verdict)
        requires
            old(self).wf(),
        ensures
            final(self).wf(),
            final(self)@ == old(self)@.ended(verdict),
    {
        if self.running {
            self.running = false;
            match verdict {
                Verdict::Passed => {
                    self.passed = self.passed + 1;
                },
                Verdict::Failed(f) => {
                    self.failure = Some(f);
                },
            }
        }
    }

    /// Whether no scenario of the batch will run any more.
    pub fn is_over(&self) -> (r: bool)
        ensures
            r == self@.over(),
    {
        self.failure.is_some() || (self.passed == self.total && !self.running)
    }

    /// What the batch came to so far.
    pub fn report(&self) -> (r: BatchReport)
        requires
            self.wf(),
        ensures
            r.total == self@.total,
            r.passed == self@.passed,
            r.failure == self@.failure,
            r.succeeded() == self@.succeeded(),
            r.wf(),
    {
        BatchReport { total: self.total, passed: self.passed, failure: self.failure }
    }
}

/// What a batch came to.
#[derive(Clone, Copy, Debug, PartialEq, Eq, Structural)]
pub struct BatchReport {
    /// How many scenarios the batch has.
    pub total: usize,
    /// How many of them passed; they are the first ones.
    pub passed: usize,
    /// The failure of the scenario behind those, if it failed; the ones
    /// behind it were not run.
    pub failure: Option<Failure>,
}

impl BatchReport {
    /// The counts fit together.
    pub open spec fn wf(self) -> bool {
        &&& self.passed <= self.total
        &&& self.failure is Some ==> self.passed < self.total
    }

    /// Every scenario of the batch passed.
    pub open spec fn succeeded(self) -> bool {
        self.passed == self.total && self.failure is None
    }

    /// How many scenarios of the batch were not run: the ones behind the
    /// scenario that failed, or behind the ones that passed where none
    /// failed.
    pub open spec fn not_run(self) -> int {
        let ran = if self.failure is Some {
            self.passed + 1
        } else {
            self.passed as int
        };
        if ran <= self.total {
            self.total - ran
        } else {
            0
        }
    }

    /// Whether every scenario of the batch passed.
    pub fn has_succeeded(&self) -> (r: bool)
        ensures
            r == self.succeeded(),
    {
        self.passed == self.total && self.failure.is_none()
    }

    /// How many scenarios of the batch were not run.
    pub fn skipped(&self) -> (n: usize)
        ensures
            n == self.not_run(),
    {
        let behind: usize = if self.passed <= self.total {
            self.total - self.passed
        } else {
            0
        };
        if self.failure.is_some() && behind > 0 {
            behind - 1
        } else {
            behind
        }
    }
}

/// How many verdicts pass before the first that does not.
pub open spec fn leading_passes(verdicts: Seq<Verdict>) -> nat
    decreases verdicts.len(),
{
    if verdicts.len() == 0 || verdicts[0] is Failed {
        0
    } else {
        1 + leading_passes(verdicts.drop_first())
    }
}

/// What a batch comes to whose scenarios, were they all run, would end with
/// these verdicts: the batch stops at the first failure.
pub open spec fn report_of(verdicts: Seq<Verdict>) -> BatchReport {
    let passed = leading_passes(verdicts);
    BatchReport {
        total: verdicts.len() as usize,
        passed: passed as usize,
        failure: if passed < verdicts.len() {
            Some(verdicts[passed as int]->Failed_0)
        } else {
            None
        },
    }
}

/// The verdicts up to `n` all pass exactly when `n` is at most the number
/// of leading passes; the verdict behind the leading passes is a failure.
pub proof fn lemma_leading_passes(verdicts: Seq<Verdict>, n: nat)
    requires
        n <= verdicts.len(),
        forall|i: int| 0 <= i < n ==> verdicts[i] is Passed,
    ensures
        n <= leading_passes(verdicts) <= verdicts.len(),
        n < verdicts.len() && verdicts[n as int] is Failed ==> leading_passes(verdicts) == n,
    decreases n,
{
    if n == 0 {
        lemma_leading_passes_bound(verdicts);
    } else {
        let rest = verdicts.drop_first();
        assert(verdicts[0] is Passed);
        assert forall|i: int| 0 <= i < n - 1 implies rest[i] is Passed by {
            assert(rest[i] == verdicts[i + 1]);
        }
        lemma_leading_passes(rest, (n - 1) as nat);
        if n < verdicts.len() {
            assert(rest[n - 1] == verdicts[n as int]);
        }
    }
}

/// There are no more leading passes than verdicts.
pub proof fn lemma_leading_passes_bound(verdicts: Seq<Verdict>)
    ensures
        leading_passes(verdicts) <= verdicts.len(),
    decreases verdicts.len(),
{
    if verdicts.len() > 0 && verdicts[0] is Passed {
        lemma_leading_passes_bound(verdicts.drop_first());
    }
}

/// Runs a batch whose scenarios have these verdicts through the protocol:
/// one at a time, in order, up to the first failure.
pub fn run_batch(verdicts: &Vec<Verdict>) -> (r: BatchReport)
    ensures
        r == report_of(verdicts@),
        r.wf(),
{
    let mut run = BatchRun::new(verdicts.len());
    loop
        invariant
            run.wf(),
            run@.total == verdicts.len(),
            !run@.running,
            forall|i: int| 0 <= i < run@.passed ==> verdicts@[i] is Passed,
            run@.failure is Some ==> verdicts@[run@.passed as int] == Verdict::Failed(
                run@.failure->0,
            ),
        decreases verdicts.len() - run@.passed, if run@.failure is Some { 0int } else { 1int },
    {
        match run.next() {
            Step::Run(i) => {
                run.record(verdicts[i]);
            },
            Step::Stop => {
                proof {
                    lemma_leading_passes(verdicts@, run@.passed);
                }
                return run.report();
            },
        }
    }
}

/// A run succeeds when every one of its batches did.
pub open spec fn run_succeeded(reports: Seq<BatchReport>) -> bool {
    forall|i: int| 0 <= i < reports.len() ==> (#[trigger] reports[i]).succeeded()
}

/// The overall result of a run: whether every batch succeeded.
pub fn overall(reports: &Vec<BatchReport>) -> (r: bool)
    ensures
        r == run_succeeded(reports@),
{
    let mut i: usize = 0;
    while i < reports.len()
        invariant
            i <= reports.len(),
            forall|k: int| 0 <= k < i ==> (#[trigger] reports@[k]).succeeded(),
        decreases reports.len() - i,
    {
        if !reports[i].has_succeeded() {
            return false;
        }
        i += 1;
    }
    true
}

/// The reports of a run whose batches have these verdicts: every batch is
/// run, whatever the batches before it came to.
pub open spec fn reports_of(batches: Seq<Vec<Verdict>>) -> Seq<BatchReport> {
    batches.map_values(|verdicts: Vec<Verdict>| report_of(verdicts@))
}

/// Runs every batch of a run through the protocol, in order, and says
/// what each came to and whether the run as a whole succeeded.
pub fn run_all(batches: &Vec<Vec<Verdict>>) -> (r: (Vec<BatchReport>, bool))
    ensures
        r.0@ == reports_of(batches@),
        r.1 == run_succeeded(reports_of(batches@)),
{
    let mut reports: Vec<BatchReport> = Vec::new();
    let mut i: usize = 0;
    while i < batches.len()
        invariant
            i <= batches.len(),
            reports@ == reports_of(batches@.subrange(0, i as int)),
        decreases batches.len() - i,
    {
        let report = run_batch(&batches[i]);
        reports.push(report);
        proof {
            assert(reports@ =~= reports_of(batches@.subrange(0, i + 1)));
        }
        i += 1;
    }
    proof {
        assert(batches@.subrange(0, i as int) =~= batches@);
    }
    let succeeded = overall(&reports);
    (reports, succeeded)
}

/// A batch fails fast: what the scenarios behind the first failure would
/// have come to has no say in the report, and none of them is run.
pub proof fn lemma_batch_fails_fast(a: Seq<Verdict>, b: Seq<Verdict>, first: int)
    requires
        a.len() == b.len(),
        a.len() <= usize::MAX,
        0 <= first < a.len(),
        a[first] is Failed,
        forall|i: int| 0 <= i < first ==> a[i] is Passed,
        forall|i: int| 0 <= i <= first ==> a[i] == b[i],
    ensures
        report_of(a) == report_of(b),
        report_of(a).passed == first,
        report_of(a).failure == Some(a[first]->Failed_0),
        report_of(a).not_run() == a.len() - first - 1,
{
    lemma_leading_passes(a, first as nat);
    lemma_leading_passes(b, first as nat);
}

/// A batch of which every scenario passes is run to its end and succeeds.
pub proof fn lemma_batch_of_passes(verdicts: Seq<Verdict>)
    requires
        verdicts.len() <= usize::MAX,
        forall|i: int| 0 <= i < verdicts.len() ==> verdicts[i] is Passed,
    ensures
        report_of(verdicts).succeeded(),
        report_of(verdicts).not_run() == 0,
{
    lemma_leading_passes(verdicts, verdicts.len());
}

/// A scenario moves from `NotRun` to `Running` and from there to `Passed`
/// or `Failed`, and in no other way: starting the next scenario and taking
/// a verdict change the state of no scenario otherwise.
pub proof fn lemma_states_move_forward(batch: BatchView, verdict: Verdict, i: int)
    requires
        batch.wf(),
        0 <= i < batch.total,
    ensures
        batch.started().wf(),
        batch.ended(verdict).wf(),
        batch.started().state_of(i) == batch.state_of(i) || (batch.state_of(i) is NotRun
            && batch.started().state_of(i) is Running),
        batch.ended(verdict).state_of(i) == batch.state_of(i) || (batch.state_of(i) is Running && (
        batch.ended(verdict).state_of(i) == match verdict {
            Verdict::Passed => ScenarioState::Passed,
            Verdict::Failed(f) => ScenarioState::Failed(f),
        })),
{
}

/// A batch that is over stays as it is: nothing is started in it, and no
/// verdict is taken.
pub proof fn lemma_over_is_final(batch: BatchView, verdict: Verdict)
    requires
        batch.wf(),
        batch.over(),
    ensures
        batch.started() == batch,
        batch.ended(verdict) == batch,
{
}

/// At every moment of a batch the scenarios that passed come first, at
/// most one scenario behind them is running or has failed, and the others
/// have not run.
pub proof fn lemma_one_at_a_time(batch: BatchView, i: int, j: int)
    requires
        batch.wf(),
        0 <= i < j < batch.total,
    ensures
        batch.state_of(j) is Passed ==> batch.state_of(i) is Passed,
        !(batch.state_of(i) is Passed) ==> batch.state_of(j) is NotRun,
{
}

/// A run succeeds exactly when no batch has a failure and every batch ran
/// all of its scenarios.
pub proof fn lemma_run_succeeds(reports: Seq<BatchReport>)
    ensures
        run_succeeded(reports) <==> forall|i: int|
            0 <= i < reports.len() ==> (#[trigger] reports[i]).failure is None && reports[i].passed
                == reports[i].total,
{
    if run_succeeded(reports) {
        assert forall|i: int| 0 <= i < reports.len() implies (#[trigger] reports[i]).failure
            is None && reports[i].passed == reports[i].total by {
            assert(reports[i].succeeded());
        }
    }
    if forall|i: int|
        0 <= i < reports.len() ==> (#[trigger] reports[i]).failure is None && reports[i].passed
            == reports[i].total {
        assert forall|i: int| 0 <= i < reports.len() implies (#[trigger] reports[i]).succeeded() by {
            assert(reports[i].failure is None && reports[i].passed == reports[i].total);
        }
    }
}

} // verus!
