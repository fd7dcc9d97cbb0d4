//! The failure kinds a command can report.
use crate::status::{status_name, TaskStatus};
use vstd::prelude::*;
use vstd::string::*;

verus! {

/// Why a command was not applied. Whenever one of these is returned, nothing
/// has been changed.
#[derive(Clone, Copy, Debug, PartialEq, Eq, Structural)]
pub enum TaskError {
    /// The task that the command refers to does not exist.
    NotFound,
    /// The task is not in a status from which the operation may start.
    /// `attempted` is the status the operation leads to, `actual` the status
    /// the task is in.
    InvalidTransition { attempted: TaskStatus, actual: TaskStatus },
    /// The store refused the write: a key that must be unique is taken, a
    /// record that must exist is missing, or a number does not fit its column.
    StorageError,
}

/// The message that goes with an error.
pub open spec fn error_message(e: TaskError) -> Seq<char> {
    match e {
        TaskError::NotFound => "Task Not Found"@,
        TaskError::InvalidTransition { attempted, actual } => "invalid state: cannot move to "@
            + status_name(attempted) + " from "@ + status_name(actual),
        TaskError::StorageError => "storage error"@,
    }
}

/// Whether two errors are of the same kind.
pub open spec fn same_kind(a: TaskError, b: TaskError) -> bool {
    match a {
        TaskError::NotFound => b is NotFound,
        TaskError::InvalidTransition { .. } => b is InvalidTransition,
        TaskError::StorageError => b is StorageError,
    }
}

/// The messages of two errors of different kinds differ: whoever reads the
/// message can tell a missing task from a wrong status, and both from a
/// storage error.
pub proof fn law_messages_tell_kinds_apart(a: TaskError, b: TaskError)
    requires
        !same_kind(a, b),
    ensures
        error_message(a) != error_message(b),
{
    reveal_strlit("Task Not Found");
    reveal_strlit("invalid state: cannot move to ");
    reveal_strlit("storage error");
    assert(a is NotFound ==> error_message(a)[0] == 'T');
    assert(a is InvalidTransition ==> error_message(a)[0] == 'i');
    assert(a is StorageError ==> error_message(a)[0] == 's');
    assert(b is NotFound ==> error_message(b)[0] == 'T');
    assert(b is InvalidTransition ==> error_message(b)[0] == 'i');
    assert(b is StorageError ==> error_message(b)[0] == 's');
}

impl TaskError {
    /// A human-readable message for this error.
    pub fn message(&self) -> (text: String)
        ensures
            text@ == error_message(*self),
    {
        match self {
            TaskError::NotFound => String::from_str("Task Not Found"),
            TaskError::InvalidTransition { attempted, actual } => {
                let mut text = String::from_str("invalid state: cannot move to ");
                text.append(attempted.name());
                text.append(" from ");
                text.append(actual.name());
                text
            },
            TaskError::StorageError => String::from_str("storage error"),
        }
    }

    /// Whether this error says that the task is missing.
    pub fn is_not_found(&self) -> (yes: bool)
        ensures
            yes == (*self == TaskError::NotFound),
    {
        match self {
            TaskError::NotFound => true,
            _ => false,
        }
    }

    /// Whether this error says that the task was in the wrong status.
    pub fn is_invalid_transition(&self) -> (yes: bool)
        ensures
            yes == (*self is InvalidTransition),
    {
        match self {
            TaskError::InvalidTransition { .. } => true,
            _ => false,
        }
    }
}

} // verus!
