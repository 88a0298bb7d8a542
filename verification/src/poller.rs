//! The polling of one job, as a state machine.
//!
//! The machine decides; its caller does the waiting. The caller reports the
//! time that has passed since polling began, is told whether to fetch the
//! job's record, reports what it fetched, and is told whether to sleep and
//! come back or to stop.

use vstd::prelude::*;

use crate::error::{TrackError, TrackErrorView};
use crate::job::{JobRecord, JobRecordView, Outcome, OutcomeView};

verus! {

/// How often a job is polled, and for how long. Both in milliseconds.
#[derive(Clone, Copy, Debug, PartialEq, Eq, Structural)]
pub struct PollPolicy {
    pub interval_ms: u64,
    pub timeout_ms: u64,
}

impl PollPolicy {
    /// A poll every five seconds, for five minutes.
    pub fn standard() -> (policy: PollPolicy)
        ensures
            policy == (PollPolicy { interval_ms: 5_000, timeout_ms: 300_000 }),
    {
        PollPolicy { interval_ms: 5_000, timeout_ms: 300_000 }
    }
}

/// Where the polling of a job stands. `Running` is the only state that is
/// left again.
#[derive(Debug, PartialEq, Eq)]
pub enum PollerState {
    Running,
    /// The job finished; the outcome is a success or a split.
    Succeeded(Outcome),
    /// The job failed, or its record could not be fetched.
    Failed(TrackError),
    /// The deadline passed while the job was still running.
    TimedOut,
}

/// The mathematical value of a [`PollerState`].
pub enum PollerStateView {
    Running,
    Succeeded(OutcomeView),
    Failed(TrackErrorView),
    TimedOut,
}

impl View for PollerState {
    type V = PollerStateView;

    open spec fn view(&self) -> PollerStateView {
        match self {
            PollerState::Running => PollerStateView::Running,
            PollerState::Succeeded(outcome) => PollerStateView::Succeeded(outcome@),
            PollerState::Failed(error) => PollerStateView::Failed(error@),
            PollerState::TimedOut => PollerStateView::TimedOut,
        }
    }
}

impl PollerStateView {
    /// No event changes the state any more.
    pub open spec fn is_terminal(self) -> bool {
        !(self is Running)
    }

    /// A state that the machine can be in: `Succeeded` never carries a failure.
    pub open spec fn well_formed(self) -> bool {
        self matches PollerStateView::Succeeded(outcome) ==> !(outcome is Failure)
    }

    /// What polling ended with; `None` while it is running.
    pub open spec fn verdict(self) -> Option<Result<OutcomeView, TrackErrorView>> {
        match self {
            PollerStateView::Running => None,
            PollerStateView::Succeeded(outcome) => Some(Ok(outcome)),
            PollerStateView::Failed(error) => Some(Err(error)),
            PollerStateView::TimedOut => Some(Err(TrackErrorView::Timeout)),
        }
    }
}

/// What the caller reports to the machine.
#[derive(Debug, PartialEq, Eq)]
pub enum PollEvent {
    /// The time since polling began, read before a fetch.
    Clock { elapsed_ms: u64 },
    /// The job's record, as just fetched.
    Record(JobRecord),
    /// The fetch failed.
    FetchFailed(TrackError),
}

/// The mathematical value of a [`PollEvent`].
pub enum PollEventView {
    Clock { elapsed_ms: u64 },
    Record(JobRecordView),
    FetchFailed(TrackErrorView),
}

impl View for PollEvent {
    type V = PollEventView;

    open spec fn view(&self) -> PollEventView {
        match self {
            PollEvent::Clock { elapsed_ms } => PollEventView::Clock { elapsed_ms: *elapsed_ms },
            PollEvent::Record(record) => PollEventView::Record(record@),
            PollEvent::FetchFailed(error) => PollEventView::FetchFailed(error@),
        }
    }
}

/// What the machine tells its caller to do next.
#[derive(Clone, Copy, Debug, PartialEq, Eq, Structural)]
pub enum PollAction {
    /// Fetch the job's record and report it.
    Fetch,
    /// Sleep for so many milliseconds, then report the clock.
    Sleep { ms: u64 },
    /// Polling is over: do nothing more for this job.
    Stop,
}

/// The terminal state that an outcome leads to.
pub open spec fn settled(outcome: OutcomeView) -> PollerStateView {
    match outcome {
        OutcomeView::Failure(message) => PollerStateView::Failed(TrackErrorView::Failed(message)),
        _ => PollerStateView::Succeeded(outcome),
    }
}

/// The transition of the machine: the state after `event`, and what the caller
/// is to do.
pub open spec fn transition(policy: PollPolicy, state: PollerStateView, event: PollEventView) -> (
    PollerStateView,
    PollAction,
) {
    match state {
        PollerStateView::Running => match event {
            PollEventView::Clock { elapsed_ms } => if elapsed_ms >= policy.timeout_ms {
                (PollerStateView::TimedOut, PollAction::Stop)
            } else {
                (PollerStateView::Running, PollAction::Fetch)
            },
            PollEventView::Record(record) => match record.resolution() {
                None => (PollerStateView::Running, PollAction::Sleep { ms: policy.interval_ms }),
                Some(outcome) => (settled(outcome), PollAction::Stop),
            },
            PollEventView::FetchFailed(error) => (PollerStateView::Failed(error), PollAction::Stop),
        },
        _ => (state, PollAction::Stop),
    }
}

/// The state of a poller after a run of polling cycles. Cycle `k` reports the
/// clock reading `clocks[k]` and, where the poller then asks for it, the record
/// `records[k]`.
pub open spec fn state_after(
    policy: PollPolicy,
    clocks: Seq<u64>,
    records: Seq<JobRecordView>,
) -> PollerStateView
    recommends
        clocks.len() == records.len(),
    decreases clocks.len(),
{
    if clocks.len() == 0 {
        PollerStateView::Running
    } else {
        let before = state_after(policy, clocks.drop_last(), records.drop_last());
        let (checked, action) = transition(
            policy,
            before,
            PollEventView::Clock { elapsed_ms: clocks.last() },
        );
        if action == PollAction::Fetch {
            transition(policy, checked, PollEventView::Record(records.last())).0
        } else {
            checked
        }
    }
}

/// The number of fetches in a run of polling cycles.
pub open spec fn fetches_in(
    policy: PollPolicy,
    clocks: Seq<u64>,
    records: Seq<JobRecordView>,
) -> nat
    recommends
        clocks.len() == records.len(),
    decreases clocks.len(),
{
    if clocks.len() == 0 {
        0
    } else {
        let before = state_after(policy, clocks.drop_last(), records.drop_last());
        let earlier = fetches_in(policy, clocks.drop_last(), records.drop_last());
        let action = transition(
            policy,
            before,
            PollEventView::Clock { elapsed_ms: clocks.last() },
        ).1;
        if action == PollAction::Fetch {
            earlier + 1
        } else {
            earlier
        }
    }
}

/// A run in which every record is of a job that is still running.
pub open spec fn never_finishes(records: Seq<JobRecordView>) -> bool {
    forall|k: int| 0 <= k < records.len() ==> (#[trigger] records[k]).resolution() is None
}

/// A run in which at least the polling interval passes between one clock
/// reading and the next.
pub open spec fn paced(policy: PollPolicy, clocks: Seq<u64>) -> bool {
    forall|k: int| 0 < k < clocks.len() ==> #[trigger] clocks[k] >= clocks[k - 1] + policy.interval_ms
}

/// Once polling has ended, no event changes its state, and every answer is to
/// stop: nothing is fetched after a terminal state.
pub proof fn lemma_terminal_state_is_final(
    policy: PollPolicy,
    state: PollerStateView,
    event: PollEventView,
)
    requires
        state.is_terminal(),
    ensures
        transition(policy, state, event) == (state, PollAction::Stop),
{
}

/// The poller answers `Stop` exactly when polling has ended: while it runs it
/// asks for a fetch or a sleep, and once it has ended there is a verdict.
pub proof fn lemma_stop_means_ended(
    policy: PollPolicy,
    state: PollerStateView,
    event: PollEventView,
)
    ensures
        transition(policy, state, event).1 == PollAction::Stop <==> transition(
            policy,
            state,
            event,
        ).0.is_terminal(),
        transition(policy, state, event).0.is_terminal() <==> transition(
            policy,
            state,
            event,
        ).0.verdict() is Some,
{
}

/// A poller never counts a failure as a success: from a state in which
/// `Succeeded` carries no failure, every event leads to such a state.
pub proof fn lemma_success_is_no_failure(
    policy: PollPolicy,
    state: PollerStateView,
    event: PollEventView,
)
    requires
        state.well_formed(),
    ensures
        transition(policy, state, event).0.well_formed(),
{
}

/// A clock reading at or past the deadline ends the polling of a running job
/// with a timeout; an earlier one lets it fetch.
pub proof fn lemma_deadline_decides(policy: PollPolicy, elapsed_ms: u64)
    ensures
        transition(policy, PollerStateView::Running, PollEventView::Clock { elapsed_ms }) == if elapsed_ms
            >= policy.timeout_ms {
            (PollerStateView::TimedOut, PollAction::Stop)
        } else {
            (PollerStateView::Running, PollAction::Fetch)
        },
{
}

proof fn lemma_paced_clock_grows(policy: PollPolicy, clocks: Seq<u64>, k: int)
    requires
        paced(policy, clocks),
        0 <= k < clocks.len(),
    ensures
        clocks[k] >= k * policy.interval_ms,
    decreases k,
{
    if k > 0 {
        lemma_paced_clock_grows(policy, clocks, k - 1);
        assert(clocks[k] >= clocks[k - 1] + policy.interval_ms);
        assert((k - 1) * policy.interval_ms + policy.interval_ms == k * policy.interval_ms)
            by (nonlinear_arith);
    } else {
        assert(k * policy.interval_ms == 0) by (nonlinear_arith)
            requires
                k == 0,
        ;
    }
}

/// Polling a job that never finishes does not go on for ever.
///
/// Whatever the records hold, as long as each says that the job is still
/// running, the poller is running or has timed out; it has timed out exactly
/// if some clock reading reached the deadline; and where the caller lets the
/// polling interval pass between cycles, that is so after at most
/// `timeout / interval + 1` cycles, with at most that many fetches made.
pub proof fn lemma_unfinished_job_times_out(
    policy: PollPolicy,
    clocks: Seq<u64>,
    records: Seq<JobRecordView>,
)
    requires
        clocks.len() == records.len(),
        never_finishes(records),
    ensures
        state_after(policy, clocks, records) is Running || state_after(policy, clocks, records)
            is TimedOut,
        state_after(policy, clocks, records) is TimedOut <==> exists|k: int|
            0 <= k < clocks.len() && #[trigger] clocks[k] >= policy.timeout_ms,
        fetches_in(policy, clocks, records) <= clocks.len(),
        paced(policy, clocks) ==> fetches_in(policy, clocks, records) * policy.interval_ms
            <= policy.timeout_ms + policy.interval_ms,
        paced(policy, clocks) && clocks.len() > 0 && (clocks.len() - 1) * policy.interval_ms
            >= policy.timeout_ms ==> state_after(policy, clocks, records) is TimedOut,
    decreases clocks.len(),
{
    if clocks.len() > 0 {
        let n = clocks.len() as int;
        let earlier_clocks = clocks.drop_last();
        let earlier_records = records.drop_last();
        assert(never_finishes(earlier_records)) by {
            assert forall|k: int| 0 <= k < earlier_records.len() implies (
            #[trigger] earlier_records[k]).resolution() is None by {
                assert(earlier_records[k] == records[k]);
            }
        }
        lemma_unfinished_job_times_out(policy, earlier_clocks, earlier_records);
        let before = state_after(policy, earlier_clocks, earlier_records);
        assert(records.last() == records[n - 1]);
        assert(records[n - 1].resolution() is None);
        if before is TimedOut {
            let k = choose|k: int|
                0 <= k < earlier_clocks.len() && #[trigger] earlier_clocks[k] >= policy.timeout_ms;
            assert(clocks[k] == earlier_clocks[k]);
        } else {
            assert forall|k: int| 0 <= k < n - 1 implies !(#[trigger] clocks[k]
                >= policy.timeout_ms) by {
                assert(clocks[k] == earlier_clocks[k]);
            }
        }
        if paced(policy, clocks) {
            assert(paced(policy, earlier_clocks)) by {
                assert forall|k: int| 0 < k < earlier_clocks.len() implies #[trigger] earlier_clocks[k]
                    >= earlier_clocks[k - 1] + policy.interval_ms by {
                    assert(earlier_clocks[k] == clocks[k]);
                    assert(earlier_clocks[k - 1] == clocks[k - 1]);
                }
            }
            lemma_paced_clock_grows(policy, clocks, n - 1);
            let fetches = fetches_in(policy, clocks, records);
            let earlier = fetches_in(policy, earlier_clocks, earlier_records);
            if fetches == earlier + 1 {
                // The last cycle fetched: its reading was short of the deadline.
                assert(clocks[n - 1] < policy.timeout_ms);
                assert(earlier <= n - 1);
                assert(earlier * policy.interval_ms <= (n - 1) * policy.interval_ms)
                    by (nonlinear_arith)
                    requires
                        earlier <= n - 1,
                        policy.interval_ms >= 0,
                ;
                assert((earlier + 1) * policy.interval_ms == earlier * policy.interval_ms
                    + policy.interval_ms) by (nonlinear_arith);
            }
        }
    }
}

/// The polling of one job.
#[derive(Debug)]
pub struct Poller {
    policy: PollPolicy,
    state: PollerState,
}

/// The mathematical value of a [`Poller`].
pub struct PollerView {
    pub policy: PollPolicy,
    pub state: PollerStateView,
}

impl View for Poller {
    type V = PollerView;

    closed spec fn view(&self) -> PollerView {
        PollerView { policy: self.policy, state: self.state@ }
    }
}

/// The mathematical value of what polling ended with.
pub open spec fn verdict_view(verdict: Option<Result<Outcome, TrackError>>) -> Option<
    Result<OutcomeView, TrackErrorView>,
> {
    match verdict {
        None => None,
        Some(Ok(outcome)) => Some(Ok(outcome@)),
        Some(Err(error)) => Some(Err(error@)),
    }
}

impl Poller {
    /// A poller that has not polled yet.
    pub fn new(policy: PollPolicy) -> (poller: Poller)
        ensures
            poller@ == (PollerView { policy, state: PollerStateView::Running }),
    {
        Poller { policy, state: PollerState::Running }
    }

    /// The policy that the poller was made with.
    pub fn policy(&self) -> (policy: PollPolicy)
        ensures
            policy == self@.policy,
    {
        self.policy
    }

    /// Where polling stands.
    pub fn state(&self) -> (state: &PollerState)
        ensures
            state@ == self@.state,
    {
        &self.state
    }

    /// Whether the poller still takes events.
    pub fn is_running(&self) -> (running: bool)
        ensures
            running == !self@.state.is_terminal(),
    {
        match &self.state {
            PollerState::Running => true,
            _ => false,
        }
    }

    /// Takes one event and says what to do next. A poller that has stopped
    /// stays as it is and answers `Stop`.
    pub fn step(&mut self, event: PollEvent) -> (action: PollAction)
        ensures
            final(self)@.policy == old(self)@.policy,
            (final(self)@.state, action) == transition(
                old(self)@.policy,
                old(self)@.state,
                event@,
            ),
            old(self)@.state.well_formed() ==> final(self)@.state.well_formed(),
    {
        if !self.is_running() {
            return PollAction::Stop;
        }
        match event {
            PollEvent::Clock { elapsed_ms } => {
                if elapsed_ms >= self.policy.timeout_ms {
                    self.state = PollerState::TimedOut;
                    PollAction::Stop
                } else {
                    PollAction::Fetch
                }
            },
            PollEvent::Record(record) => match record.result() {
                None => PollAction::Sleep { ms: self.policy.interval_ms },
                Some(Outcome::Failure(message)) => {
                    self.state = PollerState::Failed(TrackError::Failed(message));
                    PollAction::Stop
                },
                Some(outcome) => {
                    self.state = PollerState::Succeeded(outcome);
                    PollAction::Stop
                },
            },
            PollEvent::FetchFailed(error) => {
                self.state = PollerState::Failed(error);
                PollAction::Stop
            },
        }
    }

    /// What polling ended with; `None` while it is running.
    pub fn verdict(&self) -> (verdict: Option<Result<Outcome, TrackError>>)
        ensures
            verdict_view(verdict) == self@.state.verdict(),
    {
        match &self.state {
            PollerState::Running => None,
            PollerState::Succeeded(outcome) => Some(Ok(outcome.clone())),
            PollerState::Failed(error) => Some(Err(error.clone())),
            PollerState::TimedOut => Some(Err(TrackError::Timeout)),
        }
    }
}

} // verus!
