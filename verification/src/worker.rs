//! The worker that keeps one tunnel established.
//!
//! A worker lives for one activation episode. It asks the supervisor what to
//! do next, runs the start command it is handed, reports how the run ended,
//! and asks again, until the tunnel is switched off or the retry budget is
//! used up.

use vstd::prelude::*;
use crate::command::{Invocation, InvocationView};
use crate::error::SupervisorError;
use crate::runner::ExitOutcome;

verus! {

/// How many times a worker starts its tunnel's command before it gives up.
pub const MAX_ATTEMPTS: u32 = 5;

/// Why a worker ended.
#[derive(Debug, Clone, Copy, PartialEq, Eq, Structural)]
pub enum StopReason {
    /// The tunnel is no longer wanted active.
    Deactivated,
    /// The retry budget is used up. The tunnel stays marked as wanted: the
    /// supervisor does not correct that on its own.
    Exhausted,
}

impl StopReason {
    /// What to report when a worker ends for this reason.
    pub fn fault(&self) -> (out: Option<SupervisorError>)
        ensures
            out == if *self == StopReason::Exhausted {
                Some(SupervisorError::RetryBudgetExhausted)
            } else {
                None::<SupervisorError>
            },
    {
        match self {
            StopReason::Exhausted => Some(SupervisorError::RetryBudgetExhausted),
            StopReason::Deactivated => None,
        }
    }
}

/// Whether a worker that has made `attempts` attempts starts another one,
/// given what the membership check shows.
pub open spec fn may_run(attempts: nat, active: bool) -> bool {
    active && attempts < MAX_ATTEMPTS
}

/// Why a worker that does not start another attempt ends. A used-up budget
/// is reported also where the tunnel was switched off at the same moment.
pub open spec fn stop_reason(attempts: nat) -> StopReason {
    if attempts >= MAX_ATTEMPTS {
        StopReason::Exhausted
    } else {
        StopReason::Deactivated
    }
}

/// A worker as plain values.
pub struct WorkerView {
    pub id: Seq<char>,
    pub attempts: nat,
}

/// The state of one activation episode: the tunnel it serves and the number
/// of attempts made so far. The count belongs to this worker alone and
/// starts at zero with each activation.
#[derive(Debug)]
pub struct Worker {
    id: String,
    attempts: u32,
}

impl View for Worker {
    type V = WorkerView;

    closed spec fn view(&self) -> WorkerView {
        WorkerView { id: self.id@, attempts: self.attempts as nat }
    }
}

impl Worker {
    #[verifier::type_invariant]
    spec fn within_budget(&self) -> bool {
        self.attempts <= MAX_ATTEMPTS
    }

    /// The worker of a fresh activation of `id`.
    pub(crate) fn new(id: String) -> (out: Self)
        ensures
            out@ == (WorkerView { id: id@, attempts: 0 }),
    {
        Worker { id, attempts: 0 }
    }

    /// The tunnel this worker serves.
    pub fn id(&self) -> (out: &str)
        ensures
            out@ == self@.id,
    {
        self.id.as_str()
    }

    /// The number of attempts made so far; never more than the budget.
    pub fn attempts(&self) -> (out: u32)
        ensures
            out == self@.attempts,
            out <= MAX_ATTEMPTS,
    {
        proof {
            use_type_invariant(self);
        }
        self.attempts
    }
}

/// An attempt as plain values.
pub struct AttemptView {
    pub worker: WorkerView,
    pub invocation: InvocationView,
}

/// One attempt that a worker has been told to make: the start command to run
/// and, held back until the run is over, the worker itself.
#[derive(Debug)]
pub struct Attempt {
    worker: Worker,
    invocation: Invocation,
}

impl View for Attempt {
    type V = AttemptView;

    closed spec fn view(&self) -> AttemptView {
        AttemptView { worker: self.worker@, invocation: self.invocation@ }
    }
}

impl Attempt {
    #[verifier::type_invariant]
    spec fn budget_left(&self) -> bool {
        self.worker@.attempts < MAX_ATTEMPTS
    }

    /// The attempt of `worker` to run `invocation`.
    pub(crate) fn new(worker: Worker, invocation: Invocation) -> (out: Self)
        requires
            worker@.attempts < MAX_ATTEMPTS,
        ensures
            out@ == (AttemptView { worker: worker@, invocation: invocation@ }),
    {
        Attempt { worker, invocation }
    }

    /// The start command to run.
    pub fn invocation(&self) -> (out: &Invocation)
        ensures
            out@ == self@.invocation,
    {
        &self.invocation
    }

    /// The worker that makes this attempt, as it was before the attempt.
    pub fn worker(&self) -> (out: &Worker)
        ensures
            out@ == self@.worker,
            out@.attempts < MAX_ATTEMPTS,
    {
        proof {
            use_type_invariant(self);
        }
        &self.worker
    }

    /// Ends the attempt and hands the worker back with one more attempt
    /// counted. Every outcome counts: a clean exit, a crash, a kill from
    /// outside, and a command that could not be launched at all.
    pub fn finish(self, outcome: &ExitOutcome) -> (out: Worker)
        ensures
            out@ == (WorkerView { id: self@.worker.id, attempts: self@.worker.attempts + 1 }),
    {
        proof {
            use_type_invariant(&self);
        }
        let Attempt { worker, invocation: _ } = self;
        let Worker { id, attempts } = worker;
        Worker { id, attempts: attempts + 1 }
    }
}

/// A worker's next step as plain values.
pub enum WorkerStepView {
    Run(AttemptView),
    Stop(StopReason),
}

/// What a worker does next.
#[derive(Debug)]
pub enum WorkerStep {
    /// Run the attempt's start command, wait for the child to exit, and
    /// finish the attempt.
    Run(Attempt),
    /// End the episode.
    Stop(StopReason),
}

impl View for WorkerStep {
    type V = WorkerStepView;

    open spec fn view(&self) -> WorkerStepView {
        match *self {
            WorkerStep::Run(attempt) => WorkerStepView::Run(attempt@),
            WorkerStep::Stop(reason) => WorkerStepView::Stop(reason),
        }
    }
}

/// The number of attempts a worker has made when it ends, if it has made
/// `made` so far and the membership check before attempt `k` shows
/// `active(k)`.
pub open spec fn attempts_at_stop(made: nat, active: spec_fn(nat) -> bool) -> nat
    decreases MAX_ATTEMPTS - made,
{
    if may_run(made, active(made)) {
        attempts_at_stop(made + 1, active)
    } else {
        made
    }
}

/// No worker makes more attempts than the budget allows, whatever the
/// membership checks show.
pub proof fn lemma_retry_bound(made: nat, active: spec_fn(nat) -> bool)
    requires
        made <= MAX_ATTEMPTS,
    ensures
        made <= attempts_at_stop(made, active) <= MAX_ATTEMPTS,
        !may_run(attempts_at_stop(made, active), active(attempts_at_stop(made, active))),
    decreases MAX_ATTEMPTS - made,
{
    if may_run(made, active(made)) {
        lemma_retry_bound(made + 1, active);
    }
}

/// A worker whose tunnel stays wanted, and whose start command keeps coming
/// back, makes exactly as many attempts as the budget allows and then ends
/// as exhausted.
pub proof fn lemma_retry_exhausts(made: nat, active: spec_fn(nat) -> bool)
    requires
        made <= MAX_ATTEMPTS,
        forall|k: nat| made <= k < MAX_ATTEMPTS ==> #[trigger] active(k),
    ensures
        attempts_at_stop(made, active) == MAX_ATTEMPTS,
        stop_reason(attempts_at_stop(made, active)) == StopReason::Exhausted,
    decreases MAX_ATTEMPTS - made,
{
    if made < MAX_ATTEMPTS {
        assert(active(made));
        lemma_retry_exhausts(made + 1, active);
    }
}

/// A worker whose tunnel is switched off before attempt `at` makes no
/// attempt from then on, and ends as deactivated.
pub proof fn lemma_deactivation_stops(made: nat, at: nat, active: spec_fn(nat) -> bool)
    requires
        made <= at < MAX_ATTEMPTS,
        forall|k: nat| made <= k < at ==> #[trigger] active(k),
        !active(at),
    ensures
        attempts_at_stop(made, active) == at,
        stop_reason(attempts_at_stop(made, active)) == StopReason::Deactivated,
    decreases at - made,
{
    if made < at {
        assert(active(made));
        lemma_deactivation_stops(made + 1, at, active);
    }
}

} // verus!
