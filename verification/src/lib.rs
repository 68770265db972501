//! Execution control layer for a single SQL query: the state machine that
//! tracks a query from Running to a terminal state, the decision logic of the
//! background pump that drains result blocks while racing cancellation, and
//! the status surface (progress, elapsed time, outcome) polled by observers.
//!
//! The asynchronous runtime, sessions, interpreters and real channels are
//! external collaborators; this crate holds the verified decisions they carry
//! out: which state is written when, which outcomes exclude each other, when
//! the owning session is forcibly killed, and how backpressure on the
//! outbound channel is honoured.

pub mod errors;
pub mod progress;
pub mod channel;
pub mod create;
pub mod pump;
pub mod request;
pub mod state;
