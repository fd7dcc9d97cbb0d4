//! Tracks issue-based work items through their assignment lifecycle and keeps
//! a monthly contribution score ledger per contributor.
//!
//! The crate is layered leaves-first:
//!
//! * [`status`] holds the lifecycle states, the operations and the transition
//!   table that connects them.
//! * [`errors`] holds the failure kinds every command can report.
//! * [`common`] holds the shape in which every command answers.
//! * [`task`] holds a work item and its transitions as functions on values.
//! * [`score`] holds a ledger record and the decision an award comes down to.
//! * [`score_stg`] is the ledger: at most one record per period and login.
//! * [`task_stg`] is the task repository: at most one task per issue.
//! * [`clock`] reads the current period from the system clock.
//! * [`task_router`] is the command surface over both stores.
//! * [`laws`] states what holds of every state and every sequence of commands.
//! * [`balance`] states that the ledger credits to every contributor what the
//!   contributor's finished tasks are worth.
pub mod balance;
pub mod clock;
pub mod common;
pub mod errors;
pub mod laws;
pub mod score;
pub mod score_stg;
pub mod status;
pub mod task;
pub mod task_router;
pub mod task_stg;
