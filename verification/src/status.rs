//! Lifecycle states of a task, the operations that move a task between them,
//! and the transition table.
use vstd::prelude::*;

verus! {

/// Where a task stands in its lifecycle.
///
/// The forward path is `Open → AssignRequested → Assigned → CompleteRequested
/// → Done → Closed`; a release leads from `AssignRequested` or `Assigned` back
/// to `Open`. `Closed` is terminal.
#[derive(Clone, Copy, Debug, PartialEq, Eq, Structural, Hash)]
pub enum TaskStatus {
    Open,
    AssignRequested,
    Assigned,
    CompleteRequested,
    Done,
    Closed,
}

/// A command that changes the status of a task.
#[derive(Clone, Copy, Debug, PartialEq, Eq, Structural, Hash)]
pub enum Operation {
    RequestAssign,
    InternApprove,
    ReleaseTask,
    RequestComplete,
    InternDone,
    InternClose,
}

/// The status that `op` leaves a task in when it succeeds.
pub open spec fn target_of(op: Operation) -> TaskStatus {
    match op {
        Operation::RequestAssign => TaskStatus::AssignRequested,
        Operation::InternApprove => TaskStatus::Assigned,
        Operation::ReleaseTask => TaskStatus::Open,
        Operation::RequestComplete => TaskStatus::CompleteRequested,
        Operation::InternDone => TaskStatus::Done,
        Operation::InternClose => TaskStatus::Closed,
    }
}

/// Whether `op` may be applied to a task whose status is `from`.
pub open spec fn valid_source(op: Operation, from: TaskStatus) -> bool {
    match op {
        Operation::RequestAssign => from == TaskStatus::Open,
        Operation::InternApprove => from == TaskStatus::AssignRequested,
        Operation::ReleaseTask => from == TaskStatus::AssignRequested || from
            == TaskStatus::Assigned,
        Operation::RequestComplete => from == TaskStatus::Assigned,
        Operation::InternDone => from == TaskStatus::CompleteRequested,
        Operation::InternClose => from == TaskStatus::Done,
    }
}

/// The edges of the lifecycle graph, written out one by one.
pub open spec fn is_edge(from: TaskStatus, to: TaskStatus) -> bool {
    ||| from == TaskStatus::Open && to == TaskStatus::AssignRequested
    ||| from == TaskStatus::AssignRequested && to == TaskStatus::Assigned
    ||| from == TaskStatus::AssignRequested && to == TaskStatus::Open
    ||| from == TaskStatus::Assigned && to == TaskStatus::Open
    ||| from == TaskStatus::Assigned && to == TaskStatus::CompleteRequested
    ||| from == TaskStatus::CompleteRequested && to == TaskStatus::Done
    ||| from == TaskStatus::Done && to == TaskStatus::Closed
}

/// The statuses of a task that somebody is working on: requested, assigned or
/// waiting for its completion to be confirmed.
pub open spec fn processing_statuses() -> Seq<TaskStatus> {
    seq![TaskStatus::AssignRequested, TaskStatus::Assigned, TaskStatus::CompleteRequested]
}

/// Whether `status` is one of [`processing_statuses`].
pub open spec fn is_processing(status: TaskStatus) -> bool {
    status == TaskStatus::AssignRequested || status == TaskStatus::Assigned || status
        == TaskStatus::CompleteRequested
}

/// The English name of a status, as it appears in messages.
pub open spec fn status_name(status: TaskStatus) -> Seq<char> {
    match status {
        TaskStatus::Open => "Open"@,
        TaskStatus::AssignRequested => "AssignRequested"@,
        TaskStatus::Assigned => "Assigned"@,
        TaskStatus::CompleteRequested => "CompleteRequested"@,
        TaskStatus::Done => "Done"@,
        TaskStatus::Closed => "Closed"@,
    }
}

/// The edges of the lifecycle graph are the rows of the transition table:
/// a status leads to another exactly where some operation starts from the
/// one and ends in the other.
pub proof fn law_edges_are_the_table(from: TaskStatus, to: TaskStatus)
    ensures
        is_edge(from, to) <==> exists|op: Operation|
            #[trigger] valid_source(op, from) && target_of(op) == to,
{
    if is_edge(from, to) {
        let op = if to == TaskStatus::AssignRequested {
            Operation::RequestAssign
        } else if to == TaskStatus::Assigned {
            Operation::InternApprove
        } else if to == TaskStatus::Open {
            Operation::ReleaseTask
        } else if to == TaskStatus::CompleteRequested {
            Operation::RequestComplete
        } else if to == TaskStatus::Done {
            Operation::InternDone
        } else {
            Operation::InternClose
        };
        assert(valid_source(op, from) && target_of(op) == to);
    }
}

impl TaskStatus {
    /// The active subset used by searches, in lifecycle order.
    pub fn processing_task_status() -> (set: Vec<TaskStatus>)
        ensures
            set@ == processing_statuses(),
            forall|s: TaskStatus| set@.contains(s) <==> is_processing(s),
    {
        let mut set: Vec<TaskStatus> = Vec::new();
        set.push(TaskStatus::AssignRequested);
        set.push(TaskStatus::Assigned);
        set.push(TaskStatus::CompleteRequested);
        proof {
            assert(set@ =~= processing_statuses());
            assert(set@[0] == TaskStatus::AssignRequested);
            assert(set@[1] == TaskStatus::Assigned);
            assert(set@[2] == TaskStatus::CompleteRequested);
        }
        set
    }

    /// Whether a task in this status counts as being worked on.
    pub fn is_processing(&self) -> (active: bool)
        ensures
            active == is_processing(*self),
    {
        match self {
            TaskStatus::AssignRequested => true,
            TaskStatus::Assigned => true,
            TaskStatus::CompleteRequested => true,
            _ => false,
        }
    }

    /// Whether no operation leads out of this status.
    pub fn is_terminal(&self) -> (terminal: bool)
        ensures
            terminal == (*self == TaskStatus::Closed),
            terminal <==> forall|op: Operation| !valid_source(op, *self),
    {
        proof {
            if *self != TaskStatus::Closed {
                let op = match *self {
                    TaskStatus::Open => Operation::RequestAssign,
                    TaskStatus::AssignRequested => Operation::InternApprove,
                    TaskStatus::Assigned => Operation::RequestComplete,
                    TaskStatus::CompleteRequested => Operation::InternDone,
                    _ => Operation::InternClose,
                };
                assert(valid_source(op, *self));
            }
        }
        match self {
            TaskStatus::Closed => true,
            _ => false,
        }
    }

    /// The name of this status.
    pub fn name(&self) -> (name: &'static str)
        ensures
            name@ == status_name(*self),
    {
        match self {
            TaskStatus::Open => "Open",
            TaskStatus::AssignRequested => "AssignRequested",
            TaskStatus::Assigned => "Assigned",
            TaskStatus::CompleteRequested => "CompleteRequested",
            TaskStatus::Done => "Done",
            TaskStatus::Closed => "Closed",
        }
    }
}

impl Operation {
    /// The status this operation leads to.
    pub fn target(&self) -> (to: TaskStatus)
        ensures
            to == target_of(*self),
    {
        match self {
            Operation::RequestAssign => TaskStatus::AssignRequested,
            Operation::InternApprove => TaskStatus::Assigned,
            Operation::ReleaseTask => TaskStatus::Open,
            Operation::RequestComplete => TaskStatus::CompleteRequested,
            Operation::InternDone => TaskStatus::Done,
            Operation::InternClose => TaskStatus::Closed,
        }
    }

    /// Whether this operation may start from `from`.
    pub fn accepts(&self, from: TaskStatus) -> (ok: bool)
        ensures
            ok == valid_source(*self, from),
            ok ==> is_edge(from, target_of(*self)),
    {
        match self {
            Operation::RequestAssign => from == TaskStatus::Open,
            Operation::InternApprove => from == TaskStatus::AssignRequested,
            Operation::ReleaseTask => from == TaskStatus::AssignRequested || from
                == TaskStatus::Assigned,
            Operation::RequestComplete => from == TaskStatus::Assigned,
            Operation::InternDone => from == TaskStatus::CompleteRequested,
            Operation::InternClose => from == TaskStatus::Done,
        }
    }
}

} // verus!
