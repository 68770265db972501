//! Decision logic of the creation routine: the fixed sequence of steps that
//! wires a request into a running query, and how each step's outcome steers
//! it.
//!
//! The runtime performs the steps themselves — creating the session and
//! context, binding the database, looking the user up, parsing, building the
//! interpreter, the audit hooks, starting and wrapping the block sequence,
//! spawning the pump — and after each one advances a [`CreatePhase`] with
//! the step's outcome. Every failure before the pump is spawned refuses the
//! request synchronously: the caller sees the error and no executor or
//! background work exists. The one exception is the start audit hook, whose
//! failure is logged and swallowed — a log entry must not abort query start.
//!
//! Deliberate gap, carried over as such: no step checks the resolved user's
//! grants or the client address before the query runs; authorization is
//! deferred to collaborators outside this layer.

use vstd::prelude::*;

use crate::errors::ErrorCode;
use crate::request::HttpQueryRequest;

verus! {

/// Where the creation routine stands: the step whose outcome it awaits
/// next, or a terminal phase. `Ready` means the executor exists in the
/// Running state and the pump task is spawned; the routine returns the
/// shared executor handle and the plan's result schema without waiting for
/// completion. `Refused` means the routine returns that error and nothing
/// was started.
#[derive(Debug)]
pub enum CreatePhase {
    CreateSession,
    CreateContext,
    BindDatabase,
    ResolveUser,
    ParseQuery,
    BuildInterpreter,
    NotifyStart,
    StartStream,
    MakeAbortable,
    SpawnPump,
    Ready,
    Refused(ErrorCode),
}

impl CreatePhase {
    /// A terminal phase awaits no further step.
    pub open spec fn is_terminal(&self) -> bool {
        match self {
            CreatePhase::Ready => true,
            CreatePhase::Refused(_) => true,
            _ => false,
        }
    }
}

/// The phase that follows `phase` when its step ends with `outcome`, for a
/// routine working on `request`.
pub open spec fn create_advance_spec(
    phase: CreatePhase,
    request: HttpQueryRequest,
    outcome: Result<(), ErrorCode>,
) -> CreatePhase {
    match outcome {
        Err(e) => {
            if phase is NotifyStart {
                CreatePhase::StartStream
            } else {
                CreatePhase::Refused(e)
            }
        },
        Ok(_) => match phase {
            CreatePhase::CreateSession => CreatePhase::CreateContext,
            CreatePhase::CreateContext => {
                if request.session.database is Some {
                    CreatePhase::BindDatabase
                } else {
                    CreatePhase::ResolveUser
                }
            },
            CreatePhase::BindDatabase => CreatePhase::ResolveUser,
            CreatePhase::ResolveUser => CreatePhase::ParseQuery,
            CreatePhase::ParseQuery => CreatePhase::BuildInterpreter,
            CreatePhase::BuildInterpreter => CreatePhase::NotifyStart,
            CreatePhase::NotifyStart => CreatePhase::StartStream,
            CreatePhase::StartStream => CreatePhase::MakeAbortable,
            CreatePhase::MakeAbortable => CreatePhase::SpawnPump,
            CreatePhase::SpawnPump => CreatePhase::Ready,
            CreatePhase::Ready => CreatePhase::Ready,
            CreatePhase::Refused(e) => CreatePhase::Refused(e),
        },
    }
}

/// Advances the creation routine by one step outcome.
///
/// A failed step refuses the request with that error — except the start
/// audit hook, which never blocks creation: its failure is swallowed and
/// the routine proceeds to start the block sequence. A successful step
/// moves to the next step in order; after a successful context creation the
/// database is bound only when the request names one, else binding is
/// skipped.
pub fn create_advance(
    phase: CreatePhase,
    request: &HttpQueryRequest,
    outcome: Result<(), ErrorCode>,
) -> (r: CreatePhase)
    requires
        !phase.is_terminal(),
    ensures
        r == create_advance_spec(phase, *request, outcome),
        outcome matches Err(e) ==> (phase is NotifyStart || r == CreatePhase::Refused(e)),
        phase is NotifyStart ==> r is StartStream,
        outcome is Ok && phase is SpawnPump ==> r is Ready,
    {
    match outcome {
        Err(e) => {
            match phase {
                CreatePhase::NotifyStart => CreatePhase::StartStream,
                _ => CreatePhase::Refused(e),
            }
        },
        Ok(_) => match phase {
            CreatePhase::CreateSession => CreatePhase::CreateContext,
            CreatePhase::CreateContext => {
                match &request.session.database {
                    Some(_) => CreatePhase::BindDatabase,
                    None => CreatePhase::ResolveUser,
                }
            },
            CreatePhase::BindDatabase => CreatePhase::ResolveUser,
            CreatePhase::ParseQuery => CreatePhase::BuildInterpreter,
            CreatePhase::ResolveUser => CreatePhase::ParseQuery,
            CreatePhase::BuildInterpreter => CreatePhase::NotifyStart,
            CreatePhase::NotifyStart => CreatePhase::StartStream,
            CreatePhase::StartStream => CreatePhase::MakeAbortable,
            CreatePhase::MakeAbortable => CreatePhase::SpawnPump,
            CreatePhase::SpawnPump => CreatePhase::Ready,
            CreatePhase::Ready => CreatePhase::Ready,
            CreatePhase::Refused(e) => CreatePhase::Refused(e),
        },
    }
}

/// Every path of the creation routine that does not end `Ready` ends
/// `Refused` with the error of the step that failed, and the start audit
/// hook is never the step that refuses: pre-execution errors propagate
/// synchronously, audit failures never do.
pub proof fn lemma_refusal_carries_step_error(
    phase: CreatePhase,
    request: HttpQueryRequest,
    outcome: Result<(), ErrorCode>,
)
    requires
        !phase.is_terminal(),
    ensures
        create_advance_spec(phase, request, outcome) matches CreatePhase::Refused(e) ==> (
            outcome == Result::<(), ErrorCode>::Err(e) && !(phase is NotifyStart)),
        outcome is Ok ==> !(create_advance_spec(phase, request, outcome) matches CreatePhase::Refused(_)),
{
}

} // verus!
