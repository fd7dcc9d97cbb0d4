//! The command surface: every command reads and writes the task repository
//! and the score ledger through one exclusive borrow of the state, and
//! answers with a [`CommonResult`].
//!
//! A command holds the state from its first read to its last write, so
//! commands that arrive together are served one after the other: of two
//! approvals of one request only the first succeeds, and of two awards to one
//! contributor none is lost.
use crate::balance::{
    balanced, law_create_keeps_balance, law_done_keeps_balance, law_empty_books_balance,
    law_transition_keeps_balance,
};
use crate::clock::current_period;
use crate::common::CommonResult;
use crate::errors::TaskError;
use crate::score::ScoreView;
use crate::score_stg::{award_outcome, ledger_after_award, unique_keys, ScoreStorage};
use crate::status::{processing_statuses, TaskStatus};
use crate::task::{NewTask, Task, TaskView, Transition, TransitionView};
use crate::task_stg::{
    create_outcome, follows_edges, search_result, store_after_create, store_after_transition,
    store_wf, task_of, transition_outcome, views_of, TaskStorage,
};
use vstd::prelude::*;

verus! {

/// What the commands work on: the task repository and the score ledger.
/// Both can be read from outside; they are written by the commands only.
pub struct AppState {
    task_stg: TaskStorage,
    score_stg: ScoreStorage,
}

/// What an [`AppState`] stands for.
pub struct AppStateView {
    pub tasks: Seq<TaskView>,
    pub scores: Seq<ScoreView>,
}

impl View for AppState {
    type V = AppStateView;

    closed spec fn view(&self) -> AppStateView {
        AppStateView { tasks: self.task_stg@, scores: self.score_stg@ }
    }
}

impl AppStateView {
    /// What the two stores see to, each for itself: one task per issue,
    /// well-formed tasks, and one score record per contributor and period.
    /// That the books [balance](balanced) is seen to by the commands.
    pub open spec fn wf(self) -> bool {
        store_wf(self.tasks) && unique_keys(self.scores)
    }
}

/// A command on the task of an issue. A request for assignment reads `login`
/// as the mentor and `student_name` as the student's name; an approval reads
/// `login` and `github_id` as the student's login and id. The other commands
/// read the issue only: what they need to know of the student is on the task.
#[derive(Debug, PartialEq, Eq)]
pub struct CommandRequest {
    pub github_issue_id: i64,
    pub login: String,
    pub github_id: i64,
    pub student_name: Option<String>,
}

/// A search for the tasks of a repository and mentor that are being worked
/// on.
#[derive(Debug, PartialEq, Eq)]
pub struct SearchTask {
    pub github_repo_id: i64,
    pub github_mentor_login: String,
}

/// Whether `res` answers a command whose outcome is `outcome` and whose
/// payload is the task.
pub open spec fn task_reply(res: CommonResult<Task>, outcome: Result<TaskView, TaskError>) -> bool {
    match outcome {
        Ok(task) => res.succeeded() && res.data->Some_0@ == task,
        Err(e) => res.failed_with(e),
    }
}

/// Whether `res` answers a command whose outcome is `outcome` and whose
/// payload is the flag `true`.
pub open spec fn flag_reply(res: CommonResult<bool>, outcome: Result<TaskView, TaskError>) -> bool {
    match outcome {
        Ok(_) => res.succeeded() && res.data == Some(true),
        Err(e) => res.failed_with(e),
    }
}

/// The award that confirming `task` as done asks of the ledger: the score
/// of the task, to the student the task is assigned to.
pub open spec fn done_award(
    scores: Seq<ScoreView>,
    task: TaskView,
    year: int,
    month: int,
) -> Result<ScoreView, TaskError> {
    award_outcome(
        scores,
        task.student_github_login->Some_0,
        task.student_github_id->Some_0,
        task.student_name->Some_0,
        task.score,
        year,
        month,
    )
}

/// The outcome of confirming the task of an issue as done in the given
/// period: the task as `Done`, or the error of the transition, or, where the
/// transition is in order, the error of the award.
pub open spec fn done_outcome(
    s: AppStateView,
    github_issue_id: int,
    year: int,
    month: int,
) -> Result<TaskView, TaskError> {
    match transition_outcome(s.tasks, github_issue_id, TransitionView::InternDone) {
        Ok(next) => match done_award(s.scores, next, year, month) {
            Ok(_) => Ok(next),
            Err(e) => Err(e),
        },
        Err(e) => Err(e),
    }
}

/// The state after confirming the task of an issue as done: task and ledger
/// are written together, or neither is.
pub open spec fn state_after_done(
    s: AppStateView,
    github_issue_id: int,
    year: int,
    month: int,
) -> AppStateView {
    match done_outcome(s, github_issue_id, year, month) {
        Ok(next) => AppStateView {
            tasks: store_after_transition(s.tasks, github_issue_id, TransitionView::InternDone),
            scores: ledger_after_award(
                s.scores,
                next.student_github_login->Some_0,
                next.student_github_id->Some_0,
                next.student_name->Some_0,
                next.score,
                year,
                month,
            ),
        },
        Err(_) => s,
    }
}

/// Whether `after` and `res` are what confirming the task of the issue as
/// done in the given period leaves of `before`.
pub open spec fn done_in_period(
    before: AppStateView,
    after: AppStateView,
    res: CommonResult<Task>,
    github_issue_id: int,
    year: int,
    month: int,
) -> bool {
    &&& 1 <= month <= 12
    &&& after == state_after_done(before, github_issue_id, year, month)
    &&& task_reply(res, done_outcome(before, github_issue_id, year, month))
}

impl AppState {
    /// What holds of every state: the books balance.
    #[verifier::type_invariant]
    pub open spec fn books_balance(&self) -> bool {
        balanced(self@)
    }

    /// A state without tasks and without scores.
    pub fn new() -> (state: AppState)
        ensures
            state@.tasks == Seq::<TaskView>::empty(),
            state@.scores == Seq::<ScoreView>::empty(),
            state@.wf(),
            balanced(state@),
    {
        let task_stg = TaskStorage::new();
        let score_stg = ScoreStorage::new();
        proof {
            law_empty_books_balance(AppStateView { tasks: task_stg@, scores: score_stg@ });
        }
        AppState { task_stg, score_stg }
    }

    /// Takes both stores out of the state for a command to work on them. The
    /// state is empty until they are put back.
    fn take(&mut self) -> (stores: (TaskStorage, ScoreStorage))
        ensures
            stores.0@ == old(self)@.tasks,
            stores.1@ == old(self)@.scores,
            old(self)@.wf(),
            balanced(old(self)@),
            final(self)@.tasks == Seq::<TaskView>::empty(),
            final(self)@.scores == Seq::<ScoreView>::empty(),
    {
        proof {
            use_type_invariant(&*self);
            use_type_invariant(&self.task_stg);
            use_type_invariant(&self.score_stg);
        }
        let mut held = AppState::new();
        core::mem::swap(self, &mut held);
        let AppState { task_stg, score_stg } = held;
        (task_stg, score_stg)
    }

    /// Puts both stores back once a command has left them balanced.
    fn put(&mut self, task_stg: TaskStorage, score_stg: ScoreStorage)
        requires
            balanced(AppStateView { tasks: task_stg@, scores: score_stg@ }),
        ensures
            final(self)@ == (AppStateView { tasks: task_stg@, scores: score_stg@ }),
            final(self)@.wf(),
    {
        proof {
            use_type_invariant(&task_stg);
            use_type_invariant(&score_stg);
        }
        let mut held = AppState { task_stg, score_stg };
        core::mem::swap(self, &mut held);
    }

    /// The task repository, to read from.
    pub fn task_stg(&self) -> (stg: &TaskStorage)
        ensures
            stg@ == self@.tasks,
            self@.wf(),
            balanced(self@),
    {
        proof {
            use_type_invariant(self);
            use_type_invariant(&self.task_stg);
            use_type_invariant(&self.score_stg);
        }
        &self.task_stg
    }

    /// The score ledger, to read from.
    pub fn score_stg(&self) -> (stg: &ScoreStorage)
        ensures
            stg@ == self@.scores,
            self@.wf(),
            balanced(self@),
    {
        proof {
            use_type_invariant(self);
            use_type_invariant(&self.task_stg);
            use_type_invariant(&self.score_stg);
        }
        &self.score_stg
    }
}

fn flag_answer(outcome: Result<Task, TaskError>) -> (res: CommonResult<bool>)
    ensures
        match outcome {
            Ok(_) => res.succeeded() && res.data == Some(true),
            Err(e) => res.failed_with(e),
        },
{
    match outcome {
        Ok(_) => CommonResult::success(Some(true)),
        Err(e) => CommonResult::from_error(e),
    }
}

fn task_answer(outcome: Result<Task, TaskError>) -> (res: CommonResult<Task>)
    ensures
        match outcome {
            Ok(task) => res.succeeded() && res.data == Some(task),
            Err(e) => res.failed_with(e),
        },
{
    match outcome {
        Ok(task) => CommonResult::success(Some(task)),
        Err(e) => CommonResult::from_error(e),
    }
}

/// Creates the task of an issue, open and with the score given. Fails with a
/// storage error where the issue has a task already.
pub fn new_task(state: &mut AppState, json: NewTask) -> (res: CommonResult<Task>)
    ensures
        final(state)@.wf(),
        follows_edges(old(state)@.tasks, final(state)@.tasks),
        final(state)@.scores == old(state)@.scores,
        final(state)@.tasks == store_after_create(
            old(state)@.tasks,
            json.github_repo_id as int,
            json.github_issue_id as int,
            json.score as int,
        ),
        task_reply(
            res,
            create_outcome(
                old(state)@.tasks,
                json.github_repo_id as int,
                json.github_issue_id as int,
                json.score as int,
            ),
        ),
        balanced(final(state)@),
{
    let (mut task_stg, score_stg) = state.take();
    proof {
        law_create_keeps_balance(
            AppStateView { tasks: task_stg@, scores: score_stg@ },
            json.github_repo_id as int,
            json.github_issue_id as int,
            json.score as int,
        );
    }
    let created = task_stg.create_task(json);
    state.put(task_stg, score_stg);
    task_answer(created)
}

/// The task of an issue, or the failure `NotFound`.
pub fn get_task(state: &AppState, github_issue_id: i64) -> (res: CommonResult<Task>)
    ensures
        task_reply(res, task_of(state@.tasks, github_issue_id as int)),
{
    task_answer(state.task_stg.find_task_by_issue_id(github_issue_id))
}

/// The tasks of a repository and mentor that are being worked on: those
/// requested, assigned or waiting for their completion to be confirmed, in
/// the order of creation. Open, done and closed tasks are left out.
pub fn search_with_status(state: &AppState, json: SearchTask) -> (res: CommonResult<Vec<Task>>)
    ensures
        res.succeeded(),
        views_of(res.data->Some_0@) == search_result(
            state@.tasks,
            json.github_repo_id as int,
            json.github_mentor_login@,
            processing_statuses(),
        ),
{
    let statuses = TaskStatus::processing_task_status();
    let found = state.task_stg.find_tasks_by_status(
        json.github_repo_id,
        &json.github_mentor_login,
        &statuses,
    );
    CommonResult::success(Some(found))
}

/// Applies to the task of an issue a transition that leaves the ledger
/// alone.
fn change(state: &mut AppState, github_issue_id: i64, t: Transition) -> (moved: Result<
    Task,
    TaskError,
>)
    requires
        t@ != TransitionView::InternDone,
    ensures
        final(state)@.wf(),
        balanced(final(state)@),
        follows_edges(old(state)@.tasks, final(state)@.tasks),
        final(state)@.scores == old(state)@.scores,
        final(state)@.tasks == store_after_transition(
            old(state)@.tasks,
            github_issue_id as int,
            t@,
        ),
        match transition_outcome(old(state)@.tasks, github_issue_id as int, t@) {
            Ok(next) => moved is Ok && moved->Ok_0@ == next,
            Err(e) => moved == Err::<Task, TaskError>(e),
        },
{
    let (mut task_stg, score_stg) = state.take();
    proof {
        law_transition_keeps_balance(
            AppStateView { tasks: task_stg@, scores: score_stg@ },
            github_issue_id as int,
            t@,
        );
    }
    let moved = task_stg.transition(github_issue_id, t);
    state.put(task_stg, score_stg);
    moved
}

/// `Open → AssignRequested` for the task of `json.github_issue_id`, with
/// `json.login` as the mentor and `json.student_name` as the student's name.
pub fn request_assign(state: &mut AppState, json: CommandRequest) -> (res: CommonResult<bool>)
    requires
        json.student_name is Some,
    ensures
        final(state)@.wf(),
        balanced(final(state)@),
        follows_edges(old(state)@.tasks, final(state)@.tasks),
        final(state)@.scores == old(state)@.scores,
        final(state)@.tasks == store_after_transition(
            old(state)@.tasks,
            json.github_issue_id as int,
            TransitionView::RequestAssign {
                mentor_login: json.login@,
                student_name: json.student_name->Some_0@,
            },
        ),
        flag_reply(
            res,
            transition_outcome(
                old(state)@.tasks,
                json.github_issue_id as int,
                TransitionView::RequestAssign {
                    mentor_login: json.login@,
                    student_name: json.student_name->Some_0@,
                },
            ),
        ),
{
    let student_name = json.student_name.unwrap();
    flag_answer(
        change(
            state,
            json.github_issue_id,
            Transition::RequestAssign { mentor_login: json.login, student_name },
        ),
    )
}

/// `AssignRequested → Assigned` for the task of `json.github_issue_id`, with
/// `json.login` and `json.github_id` as the student's login and id.
pub fn intern_approve(state: &mut AppState, json: CommandRequest) -> (res: CommonResult<bool>)
    ensures
        final(state)@.wf(),
        balanced(final(state)@),
        follows_edges(old(state)@.tasks, final(state)@.tasks),
        final(state)@.scores == old(state)@.scores,
        final(state)@.tasks == store_after_transition(
            old(state)@.tasks,
            json.github_issue_id as int,
            TransitionView::InternApprove {
                student_github_login: json.login@,
                student_github_id: json.github_id as int,
            },
        ),
        flag_reply(
            res,
            transition_outcome(
                old(state)@.tasks,
                json.github_issue_id as int,
                TransitionView::InternApprove {
                    student_github_login: json.login@,
                    student_github_id: json.github_id as int,
                },
            ),
        ),
{
    flag_answer(
        change(
            state,
            json.github_issue_id,
            Transition::InternApprove {
                student_github_login: json.login,
                student_github_id: json.github_id,
            },
        ),
    )
}

/// `AssignRequested | Assigned → Open` for the task of
/// `json.github_issue_id`: the student fields are cleared together with the
/// change of status.
pub fn release_task(state: &mut AppState, json: CommandRequest) -> (res: CommonResult<bool>)
    ensures
        final(state)@.wf(),
        balanced(final(state)@),
        follows_edges(old(state)@.tasks, final(state)@.tasks),
        final(state)@.scores == old(state)@.scores,
        final(state)@.tasks == store_after_transition(
            old(state)@.tasks,
            json.github_issue_id as int,
            TransitionView::ReleaseTask,
        ),
        flag_reply(
            res,
            transition_outcome(
                old(state)@.tasks,
                json.github_issue_id as int,
                TransitionView::ReleaseTask,
            ),
        ),
{
    flag_answer(change(state, json.github_issue_id, Transition::ReleaseTask))
}

/// `Assigned → CompleteRequested` for the task of `json.github_issue_id`.
pub fn request_complete(state: &mut AppState, json: CommandRequest) -> (res: CommonResult<bool>)
    ensures
        final(state)@.wf(),
        balanced(final(state)@),
        follows_edges(old(state)@.tasks, final(state)@.tasks),
        final(state)@.scores == old(state)@.scores,
        final(state)@.tasks == store_after_transition(
            old(state)@.tasks,
            json.github_issue_id as int,
            TransitionView::RequestComplete,
        ),
        flag_reply(
            res,
            transition_outcome(
                old(state)@.tasks,
                json.github_issue_id as int,
                TransitionView::RequestComplete,
            ),
        ),
{
    flag_answer(change(state, json.github_issue_id, Transition::RequestComplete))
}

/// `CompleteRequested → Done` for the task of `json.github_issue_id`, with
/// the award of the task's score to its student dated in the given period.
///
/// Task and ledger change together or not at all: the award is made first,
/// and the status is written only once the award has succeeded. Where the
/// award fails the task stays `CompleteRequested`, so that the command can
/// be given again.
pub fn intern_done_at(state: &mut AppState, json: CommandRequest, year: i32, month: i32) -> (res:
    CommonResult<Task>)
    ensures
        final(state)@.wf(),
        follows_edges(old(state)@.tasks, final(state)@.tasks),
        final(state)@ == state_after_done(
            old(state)@,
            json.github_issue_id as int,
            year as int,
            month as int,
        ),
        task_reply(
            res,
            done_outcome(old(state)@, json.github_issue_id as int, year as int, month as int),
        ),
        balanced(final(state)@),
{
    let (mut task_stg, mut score_stg) = state.take();
    proof {
        law_done_keeps_balance(
            AppStateView { tasks: task_stg@, scores: score_stg@ },
            json.github_issue_id as int,
            year as int,
            month as int,
        );
    }
    let task = match task_stg.find_task_by_issue_id(json.github_issue_id) {
        Ok(task) => task,
        Err(e) => {
            state.put(task_stg, score_stg);
            return CommonResult::from_error(e);
        },
    };
    if task.status != TaskStatus::CompleteRequested {
        state.put(task_stg, score_stg);
        return CommonResult::from_error(
            TaskError::InvalidTransition { attempted: TaskStatus::Done, actual: task.status },
        );
    }
    let login = task.student_github_login.unwrap();
    let name = task.student_name.unwrap();
    let github_id = task.student_github_id.unwrap();
    let done = match score_stg.award(login, github_id, name, task.score, year, month) {
        Ok(_) => task_stg.intern_done(json.github_issue_id),
        Err(e) => Err(e),
    };
    state.put(task_stg, score_stg);
    task_answer(done)
}

/// `CompleteRequested → Done` for the task of `json.github_issue_id`, with
/// the award dated at the current instant: [`intern_done_at`] with the year
/// and month that the system clock is in.
pub fn intern_done(state: &mut AppState, json: CommandRequest) -> (res: CommonResult<Task>)
    ensures
        final(state)@.wf(),
        follows_edges(old(state)@.tasks, final(state)@.tasks),
        exists|year: int, month: int|
            done_in_period(
                old(state)@,
                final(state)@,
                res,
                json.github_issue_id as int,
                year,
                month,
            ),
        balanced(final(state)@),
{
    let (year, month) = current_period();
    let ghost before = state@;
    let ghost issue = json.github_issue_id as int;
    let res = intern_done_at(state, json, year, month as i32);
    proof {
        assert(done_in_period(before, state@, res, issue, year as int, month as int));
    }
    res
}

/// `Done → Closed` for the task of `json.github_issue_id`.
pub fn intern_close(state: &mut AppState, json: CommandRequest) -> (res: CommonResult<bool>)
    ensures
        final(state)@.wf(),
        balanced(final(state)@),
        follows_edges(old(state)@.tasks, final(state)@.tasks),
        final(state)@.scores == old(state)@.scores,
        final(state)@.tasks == store_after_transition(
            old(state)@.tasks,
            json.github_issue_id as int,
            TransitionView::InternClose,
        ),
        flag_reply(
            res,
            transition_outcome(
                old(state)@.tasks,
                json.github_issue_id as int,
                TransitionView::InternClose,
            ),
        ),
{
    flag_answer(change(state, json.github_issue_id, Transition::InternClose))
}

} // verus!
