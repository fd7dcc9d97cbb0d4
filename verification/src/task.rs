//! A work item and the transitions of its lifecycle, as functions on values.
use crate::errors::TaskError;
use crate::status::{is_edge, target_of, valid_source, Operation, TaskStatus};
use vstd::prelude::*;

verus! {

/// What a new task is created from.
#[derive(Debug, PartialEq, Eq)]
pub struct NewTask {
    pub github_repo_id: i64,
    pub github_issue_id: i64,
    pub score: i32,
}

/// A unit of work taken from an issue tracker.
///
/// `score` is what the contributor earns when the work is confirmed as done.
/// `mentor_login` is the login that owns the task once it has been asked for.
/// The three `student_*` fields say who does the work: they are unset while
/// the task is `Open`, the name is known from the request on, and login and
/// id join it when the request is approved.
#[derive(Debug, PartialEq, Eq)]
pub struct Task {
    pub id: u64,
    pub github_repo_id: i64,
    pub github_issue_id: i64,
    pub score: i32,
    pub status: TaskStatus,
    pub mentor_login: Option<String>,
    pub student_github_login: Option<String>,
    pub student_name: Option<String>,
    pub student_github_id: Option<i64>,
}

/// What a [`Task`] stands for.
pub struct TaskView {
    pub id: int,
    pub github_repo_id: int,
    pub github_issue_id: int,
    pub score: int,
    pub status: TaskStatus,
    pub mentor_login: Option<Seq<char>>,
    pub student_github_login: Option<Seq<char>>,
    pub student_name: Option<Seq<char>>,
    pub student_github_id: Option<int>,
}

/// The view of an optional text.
pub open spec fn text_view(text: Option<String>) -> Option<Seq<char>> {
    match text {
        Some(t) => Some(t@),
        None => None,
    }
}

/// The view of an optional id.
pub open spec fn id_view(id: Option<i64>) -> Option<int> {
    match id {
        Some(n) => Some(n as int),
        None => None,
    }
}

impl View for Task {
    type V = TaskView;

    open spec fn view(&self) -> TaskView {
        TaskView {
            id: self.id as int,
            github_repo_id: self.github_repo_id as int,
            github_issue_id: self.github_issue_id as int,
            score: self.score as int,
            status: self.status,
            mentor_login: text_view(self.mentor_login),
            student_github_login: text_view(self.student_github_login),
            student_name: text_view(self.student_name),
            student_github_id: id_view(self.student_github_id),
        }
    }
}

/// A change of status together with what it takes along.
#[derive(Debug, PartialEq, Eq)]
pub enum Transition {
    /// Ask for the task, naming the mentor who owns it and the student.
    RequestAssign { mentor_login: String, student_name: String },
    /// Accept the request, which fixes who the student is.
    InternApprove { student_github_login: String, student_github_id: i64 },
    /// Give the task back to the pool.
    ReleaseTask,
    /// Report the work as finished.
    RequestComplete,
    /// Confirm that the work is finished.
    InternDone,
    /// Close the task for good.
    InternClose,
}

/// What a [`Transition`] stands for.
pub enum TransitionView {
    RequestAssign { mentor_login: Seq<char>, student_name: Seq<char> },
    InternApprove { student_github_login: Seq<char>, student_github_id: int },
    ReleaseTask,
    RequestComplete,
    InternDone,
    InternClose,
}

impl View for Transition {
    type V = TransitionView;

    open spec fn view(&self) -> TransitionView {
        match self {
            Transition::RequestAssign {
                mentor_login,
                student_name,
            } => TransitionView::RequestAssign {
                mentor_login: mentor_login@,
                student_name: student_name@,
            },
            Transition::InternApprove {
                student_github_login,
                student_github_id,
            } => TransitionView::InternApprove {
                student_github_login: student_github_login@,
                student_github_id: *student_github_id as int,
            },
            Transition::ReleaseTask => TransitionView::ReleaseTask,
            Transition::RequestComplete => TransitionView::RequestComplete,
            Transition::InternDone => TransitionView::InternDone,
            Transition::InternClose => TransitionView::InternClose,
        }
    }
}

impl TransitionView {
    /// The operation that this transition performs.
    pub open spec fn operation(self) -> Operation {
        match self {
            TransitionView::RequestAssign { .. } => Operation::RequestAssign,
            TransitionView::InternApprove { .. } => Operation::InternApprove,
            TransitionView::ReleaseTask => Operation::ReleaseTask,
            TransitionView::RequestComplete => Operation::RequestComplete,
            TransitionView::InternDone => Operation::InternDone,
            TransitionView::InternClose => Operation::InternClose,
        }
    }
}

impl TaskView {
    /// Whether none of the three student fields is set.
    pub open spec fn unassigned(self) -> bool {
        self.student_github_login is None && self.student_name is None && self.student_github_id
            is None
    }

    /// Whether all of the three student fields are set.
    pub open spec fn assigned(self) -> bool {
        self.student_github_login is Some && self.student_name is Some && self.student_github_id
            is Some
    }

    /// Whether the assignment fields fit the status: nobody is named on an
    /// open task; a requested task names the mentor and the student, whose
    /// login and id are still to come; from approval on the student is known
    /// by login, name and id.
    pub open spec fn wf(self) -> bool {
        match self.status {
            TaskStatus::Open => self.unassigned(),
            TaskStatus::AssignRequested => self.mentor_login is Some && self.student_name is Some
                && self.student_github_login is None && self.student_github_id is None,
            _ => self.mentor_login is Some && self.assigned(),
        }
    }

    /// The task as `t` leaves it, whatever status it is in.
    pub open spec fn after(self, t: TransitionView) -> TaskView {
        match t {
            TransitionView::RequestAssign { mentor_login, student_name } => TaskView {
                status: TaskStatus::AssignRequested,
                mentor_login: Some(mentor_login),
                student_name: Some(student_name),
                ..self
            },
            TransitionView::InternApprove { student_github_login, student_github_id } => TaskView {
                status: TaskStatus::Assigned,
                student_github_login: Some(student_github_login),
                student_github_id: Some(student_github_id),
                ..self
            },
            TransitionView::ReleaseTask => TaskView {
                status: TaskStatus::Open,
                student_github_login: None,
                student_name: None,
                student_github_id: None,
                ..self
            },
            TransitionView::RequestComplete => TaskView {
                status: TaskStatus::CompleteRequested,
                ..self
            },
            TransitionView::InternDone => TaskView { status: TaskStatus::Done, ..self },
            TransitionView::InternClose => TaskView { status: TaskStatus::Closed, ..self },
        }
    }

    /// The error that `op` ends with on a task in a status it does not accept.
    pub open spec fn refusal(self, op: Operation) -> TaskError {
        TaskError::InvalidTransition { attempted: target_of(op), actual: self.status }
    }

    /// The transition table: from a status that the operation accepts the
    /// task moves on, from any other it is refused.
    pub open spec fn step(self, t: TransitionView) -> Result<TaskView, TaskError> {
        if valid_source(t.operation(), self.status) {
            Ok(self.after(t))
        } else {
            Err(self.refusal(t.operation()))
        }
    }
}

/// The task that `new_task` describes, under the given id: open, with nobody
/// named on it.
pub open spec fn created(
    id: int,
    github_repo_id: int,
    github_issue_id: int,
    score: int,
) -> TaskView {
    TaskView {
        id,
        github_repo_id,
        github_issue_id,
        score,
        status: TaskStatus::Open,
        mentor_login: None,
        student_github_login: None,
        student_name: None,
        student_github_id: None,
    }
}

/// A successful step follows an edge of the lifecycle and keeps the task well
/// formed; a refused one names the status it met.
pub proof fn lemma_step(task: TaskView, t: TransitionView)
    ensures
        match task.step(t) {
            Ok(next) => {
                &&& valid_source(t.operation(), task.status)
                &&& next.status == target_of(t.operation())
                &&& is_edge(task.status, next.status)
                &&& next.id == task.id
                &&& next.github_issue_id == task.github_issue_id
                &&& next.github_repo_id == task.github_repo_id
                &&& next.score == task.score
                &&& task.wf() ==> next.wf()
            },
            Err(e) => {
                &&& !valid_source(t.operation(), task.status)
                &&& e == (TaskError::InvalidTransition {
                    attempted: target_of(t.operation()),
                    actual: task.status,
                })
            },
        },
{
}

fn clone_text(text: &Option<String>) -> (copy: Option<String>)
    ensures
        copy == *text,
{
    match text {
        Some(t) => Some(t.clone()),
        None => None,
    }
}

impl Clone for Task {
    fn clone(&self) -> (copy: Self)
        ensures
            copy == *self,
    {
        Task {
            id: self.id,
            github_repo_id: self.github_repo_id,
            github_issue_id: self.github_issue_id,
            score: self.score,
            status: self.status,
            mentor_login: clone_text(&self.mentor_login),
            student_github_login: clone_text(&self.student_github_login),
            student_name: clone_text(&self.student_name),
            student_github_id: self.student_github_id,
        }
    }
}

impl Transition {
    /// The operation that this transition performs.
    pub fn operation(&self) -> (op: Operation)
        ensures
            op == self@.operation(),
    {
        match self {
            Transition::RequestAssign { .. } => Operation::RequestAssign,
            Transition::InternApprove { .. } => Operation::InternApprove,
            Transition::ReleaseTask => Operation::ReleaseTask,
            Transition::RequestComplete => Operation::RequestComplete,
            Transition::InternDone => Operation::InternDone,
            Transition::InternClose => Operation::InternClose,
        }
    }
}

impl Task {
    /// A new task: open, with nobody named on it.
    pub fn new(id: u64, new_task: NewTask) -> (task: Task)
        ensures
            task@ == created(
                id as int,
                new_task.github_repo_id as int,
                new_task.github_issue_id as int,
                new_task.score as int,
            ),
            task@.wf(),
    {
        Task {
            id,
            github_repo_id: new_task.github_repo_id,
            github_issue_id: new_task.github_issue_id,
            score: new_task.score,
            status: TaskStatus::Open,
            mentor_login: None,
            student_github_login: None,
            student_name: None,
            student_github_id: None,
        }
    }

    /// Whether the assignment fields fit the status.
    pub fn is_well_formed(&self) -> (ok: bool)
        ensures
            ok == self@.wf(),
    {
        match self.status {
            TaskStatus::Open => self.student_github_login.is_none() && self.student_name.is_none()
                && self.student_github_id.is_none(),
            TaskStatus::AssignRequested => self.mentor_login.is_some()
                && self.student_name.is_some() && self.student_github_login.is_none()
                && self.student_github_id.is_none(),
            _ => self.mentor_login.is_some() && self.student_github_login.is_some()
                && self.student_name.is_some() && self.student_github_id.is_some(),
        }
    }

    /// Applies a transition, as the transition table says: from
    /// a status that the operation accepts the task moves on, from any other
    /// the operation is refused and the task stays as it is.
    pub fn apply(&mut self, t: Transition) -> (done: Result<(), TaskError>)
        ensures
            match old(self)@.step(t@) {
                Ok(next) => done is Ok && final(self)@ == next,
                Err(e) => done == Err::<(), TaskError>(e) && *final(self) == *old(self),
            },
            old(self)@.wf() ==> final(self)@.wf(),
    {
        proof {
            lemma_step(self@, t@);
        }
        let op = t.operation();
        if !op.accepts(self.status) {
            return Err(
                TaskError::InvalidTransition { attempted: op.target(), actual: self.status },
            );
        }
        match t {
            Transition::RequestAssign { mentor_login, student_name } => {
                self.mentor_login = Some(mentor_login);
                self.student_name = Some(student_name);
            },
            Transition::InternApprove { student_github_login, student_github_id } => {
                self.student_github_login = Some(student_github_login);
                self.student_github_id = Some(student_github_id);
            },
            Transition::ReleaseTask => {
                self.student_github_login = None;
                self.student_name = None;
                self.student_github_id = None;
            },
            Transition::RequestComplete => {},
            Transition::InternDone => {},
            Transition::InternClose => {},
        }
        self.status = op.target();
        Ok(())
    }
}

} // verus!
