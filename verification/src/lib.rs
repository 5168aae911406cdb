//! Orchestration and monitoring core for a task-dashboard backend.
//!
//! The crate models the parts of the backend whose correctness depends on
//! ordering, timing and failure containment rather than on storage shape:
//! the status records written by the background scheduler, the
//! publish/subscribe hub that fans events out to live connections, the
//! stuck-task staleness rule, the recurring-task schedule computation and
//! the scheduler-loop state machine. Network and database plumbing lives
//! outside the library and hands it plain values.

mod clock;
pub mod hub;
mod ident;
pub mod models;
pub mod parse;
pub mod recurring;
pub mod scheduler;
pub mod status;
pub mod stuck;
pub mod workflow;
