//! The execution state machine of one query.
//!
//! An [`Executor`] pairs the start instant of a query with its current
//! [`ExecuteState`]: `Running` until exactly one stop transition freezes it
//! into `Stopped`, which holds a progress snapshot, the outcome, and the stop
//! instant. Observers derive the externally visible [`ExecuteStateName`] and
//! the frozen status from the stopped record; they never see a partial
//! transition, and a stopped executor never changes again.
//!
//! Instants are plain tick counts (for example milliseconds since the
//! controller's own epoch); the caller that owns the clock passes them in,
//! and passes in the live scan counters read from the execution context.

use vstd::prelude::*;

use crate::errors::ErrorCode;
use crate::progress::ProgressValues;

verus! {

/// The externally visible status of a query, derived from the internal state
/// and never stored.
#[derive(Clone, Copy, PartialEq, Eq, Structural, Debug)]
pub enum ExecuteStateName {
    Running,
    Failed,
    Succeeded,
}

/// The frozen record written by the single Running-to-Stopped transition:
/// the progress snapshot captured at that moment, the outcome (success or
/// the captured error), and the instant of termination.
pub struct ExecuteStopped {
    pub progress: Option<ProgressValues>,
    pub reason: Result<(), ErrorCode>,
    pub stop_time: u64,
}

/// The current state of one query's execution.
///
/// While `Running`, the live session, context and interpreter handles are
/// held by the surrounding runtime; the controller itself needs nothing from
/// them to decide its transitions, so the variant carries no payload here.
pub enum ExecuteState {
    Running,
    Stopped(ExecuteStopped),
}

impl ExecuteState {
    /// What a status poll reports for this state.
    pub open spec fn extract_spec(&self) -> (ExecuteStateName, Option<ErrorCode>) {
        match self {
            ExecuteState::Running => (ExecuteStateName::Running, None),
            ExecuteState::Stopped(v) => match v.reason {
                Ok(_) => (ExecuteStateName::Succeeded, None),
                Err(e) => (ExecuteStateName::Failed, Some(e)),
            },
        }
    }

    /// Derives the externally visible status: `Running` carries no error,
    /// a stopped success reports `Succeeded` with no error, and a stopped
    /// failure reports `Failed` together with the captured error.
    pub fn extract(&self) -> (r: (ExecuteStateName, Option<ErrorCode>))
        ensures
            r == self.extract_spec(),
    {
        match self {
            ExecuteState::Running => (ExecuteStateName::Running, None),
            ExecuteState::Stopped(v) => match &v.reason {
                Ok(_) => (ExecuteStateName::Succeeded, None),
                Err(e) => (
                    ExecuteStateName::Failed,
                    Some(ErrorCode { code: e.code, message: e.message.clone() }),
                ),
            },
        }
    }
}

/// What the caller of a stop transition must carry out afterwards.
///
/// `transitioned` says whether this call performed the single
/// Running-to-Stopped write; exactly that caller invokes the interpreter's
/// best-effort finish hook. `kill_session` says whether the owning session
/// must be forcibly terminated as part of this transition.
#[derive(Clone, Copy, PartialEq, Eq, Structural, Debug)]
pub struct StopOutcome {
    pub transitioned: bool,
    pub kill_session: bool,
}

/// The lock-guarded record observers poll: the start instant of the query
/// and its current execution state. The surrounding runtime shares it behind
/// a read-write lock; every transition and read here works on the value that
/// the lock guards.
pub struct Executor {
    pub start_time: u64,
    pub state: ExecuteState,
}

impl Executor {
    /// The executor's internal invariant: a stopped query did not stop
    /// before it started.
    pub open spec fn wf(&self) -> bool {
        match self.state {
            ExecuteState::Running => true,
            ExecuteState::Stopped(s) => s.stop_time >= self.start_time,
        }
    }

    pub open spec fn is_running(&self) -> bool {
        self.state is Running
    }

    pub open spec fn is_stopped(&self) -> bool {
        self.state matches ExecuteState::Stopped(_)
    }

    /// A fresh executor for a query that starts now.
    pub fn create(start_time: u64) -> (r: Executor)
        ensures
            r.start_time == start_time,
            r.is_running(),
            r.wf(),
    {
        Executor { start_time, state: ExecuteState::Running }
    }

    /// What a progress poll returns, given the live counters a running query
    /// would be read with.
    pub open spec fn progress_spec(&self, live: ProgressValues) -> Option<ProgressValues> {
        match self.state {
            ExecuteState::Running => Some(live),
            ExecuteState::Stopped(s) => s.progress,
        }
    }

    /// Progress of the query: the live counters while running, the frozen
    /// snapshot once stopped. `live` is the value of the context's scan
    /// counters at the moment of the call; a stopped executor ignores it.
    pub fn get_progress(&self, live: ProgressValues) -> (r: Option<ProgressValues>)
        ensures
            r == self.progress_spec(live),
    {
        match &self.state {
            ExecuteState::Running => Some(live),
            ExecuteState::Stopped(s) => s.progress,
        }
    }

    /// What an elapsed-time poll returns at instant `now`.
    pub open spec fn elapsed_spec(&self, now: u64) -> int {
        match self.state {
            ExecuteState::Running => now - self.start_time,
            ExecuteState::Stopped(s) => s.stop_time - self.start_time,
        }
    }

    /// Time the query has run: up to `now` while running, and the frozen
    /// duration up to the stop instant once stopped, never recomputed.
    pub fn elapsed(&self, now: u64) -> (r: u64)
        requires
            self.wf(),
            self.is_running() ==> now >= self.start_time,
        ensures
            r == self.elapsed_spec(now),
    {
        match &self.state {
            ExecuteState::Running => now - self.start_time,
            ExecuteState::Stopped(s) => s.stop_time - self.start_time,
        }
    }

    /// The state after a stop transition: a running executor freezes into
    /// the stopped record, a stopped executor is left exactly as it is.
    pub open spec fn stop_transition(
        self,
        reason: Result<(), ErrorCode>,
        live: ProgressValues,
        now: u64,
    ) -> Executor {
        if self.is_running() {
            Executor {
                start_time: self.start_time,
                state: ExecuteState::Stopped(
                    ExecuteStopped { progress: Some(live), reason, stop_time: now },
                ),
            }
        } else {
            self
        }
    }

    /// What a stop transition asks of its caller: only the call that finds
    /// the executor still running transitions, and only it may demand the
    /// forced session kill it was called with.
    pub open spec fn stop_outcome_spec(self, kill: bool) -> StopOutcome {
        StopOutcome { transitioned: self.is_running(), kill_session: self.is_running() && kill }
    }

    /// The single terminal transition. If the executor is still running it
    /// captures the live counters as the frozen snapshot, records the
    /// outcome and the stop instant, and reports what the caller must carry
    /// out (forced kill, finish hook). If the executor is already stopped
    /// the call is a no-op: nothing is rewritten and nothing is demanded.
    pub fn stop(
        &mut self,
        reason: Result<(), ErrorCode>,
        kill: bool,
        live: ProgressValues,
        now: u64,
    ) -> (r: StopOutcome)
        requires
            old(self).wf(),
            now >= old(self).start_time,
        ensures
            *final(self) == old(self).stop_transition(reason, live, now),
            r == old(self).stop_outcome_spec(kill),
            final(self).is_stopped(),
            final(self).wf(),
    {
        match &self.state {
            ExecuteState::Running => {
                self.state = ExecuteState::Stopped(
                    ExecuteStopped { progress: Some(live), reason, stop_time: now },
                );
                StopOutcome { transitioned: true, kill_session: kill }
            },
            ExecuteState::Stopped(_) => StopOutcome { transitioned: false, kill_session: false },
        }
    }
}

/// Calling the stop transition twice writes exactly once: the second
/// transition leaves the executor untouched and performs no write, and the
/// terminal record is the one written by whichever call found the executor
/// running first.
pub proof fn lemma_stop_idempotent(
    e: Executor,
    r1: Result<(), ErrorCode>,
    l1: ProgressValues,
    n1: u64,
    r2: Result<(), ErrorCode>,
    k2: bool,
    l2: ProgressValues,
    n2: u64,
)
    ensures
        e.stop_transition(r1, l1, n1).stop_transition(r2, l2, n2) == e.stop_transition(
            r1,
            l1,
            n1,
        ),
        !e.stop_transition(r1, l1, n1).stop_outcome_spec(k2).transitioned,
        e.is_running() ==> e.stop_transition(r1, l1, n1).state == (ExecuteState::Stopped(
            ExecuteStopped { progress: Some(l1), reason: r1, stop_time: n1 },
        )),
{
}

/// Once stopped, the status surface is frozen: neither the live counters nor
/// the clock handed to a later poll change what progress and elapsed time
/// report.
pub proof fn lemma_status_frozen_once_stopped(
    e: Executor,
    l1: ProgressValues,
    l2: ProgressValues,
    n1: u64,
    n2: u64,
)
    requires
        e.is_stopped(),
    ensures
        e.progress_spec(l1) == e.progress_spec(l2),
        e.elapsed_spec(n1) == e.elapsed_spec(n2),
{
}

/// A terminal state reports exactly one of Succeeded and Failed, never
/// Running; it carries an error if and only if it reports Failed.
pub proof fn lemma_terminal_outcomes_exclusive(s: ExecuteState)
    requires
        s matches ExecuteState::Stopped(_),
    ensures
        s.extract_spec().0 == ExecuteStateName::Succeeded || s.extract_spec().0
            == ExecuteStateName::Failed,
        !(s.extract_spec().0 == ExecuteStateName::Succeeded && s.extract_spec().0
            == ExecuteStateName::Failed),
        s.extract_spec().0 != ExecuteStateName::Running,
        s.extract_spec().1 is Some <==> s.extract_spec().0 == ExecuteStateName::Failed,
{
}

/// The forced session kill is demanded at most once per executor: a stop
/// demands it only out of the Running state, and after any stop transition
/// every further stop demands nothing.
pub proof fn lemma_kill_at_most_once(
    e: Executor,
    r1: Result<(), ErrorCode>,
    k1: bool,
    l1: ProgressValues,
    n1: u64,
    k2: bool,
)
    ensures
        e.stop_outcome_spec(k1).kill_session ==> e.is_running(),
        !e.stop_transition(r1, l1, n1).stop_outcome_spec(k2).kill_session,
{
}

} // verus!
