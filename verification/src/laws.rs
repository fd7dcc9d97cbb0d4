//! What holds of every state and of every sequence of commands, stated over
//! the models that the contracts of the commands speak of.
use crate::errors::TaskError;
use crate::score::{fits_score, opening_record, ScoreView};
use crate::score_stg::{
    award_outcome, current_record, has_login, has_record, is_latest_at, key_at,
    ledger_after_award, lemma_latest_index, lemma_push_keeps_unique, lemma_record_index,
    lemma_update_keeps_unique, login_at, record_index, unique_keys,
};
use crate::status::{
    is_edge, is_processing, processing_statuses, target_of, valid_source, TaskStatus,
};
use crate::task::{lemma_step, TaskView, TransitionView};
use crate::task_router::{done_award, done_outcome, state_after_done, AppStateView};
use crate::task_stg::{
    follows_edges, has_issue, issue_at, issue_index, lemma_issue_index, lemma_transition,
    search_hit, search_result, store_after_transition, store_wf, task_of, transition_outcome,
};
use vstd::prelude::*;

verus! {

/// The status of a task only ever follows an edge of the transition table,
/// and no operation succeeds from a status it does not start from: a
/// transition that succeeds found the task in a valid source status and
/// moved it along one edge; one that fails found no task, or found it in
/// another status, and changed nothing. All other tasks stay as they are.
pub proof fn law_status_follows_table(s: Seq<TaskView>, github_issue_id: int, t: TransitionView)
    requires
        store_wf(s),
    ensures
        store_wf(store_after_transition(s, github_issue_id, t)),
        follows_edges(s, store_after_transition(s, github_issue_id, t)),
        match transition_outcome(s, github_issue_id, t) {
            Ok(next) => {
                &&& task_of(s, github_issue_id) is Ok
                &&& valid_source(t.operation(), task_of(s, github_issue_id)->Ok_0.status)
                &&& is_edge(task_of(s, github_issue_id)->Ok_0.status, next.status)
                &&& next.status == target_of(t.operation())
                &&& task_of(store_after_transition(s, github_issue_id, t), github_issue_id) == Ok::<
                    TaskView,
                    TaskError,
                >(next)
            },
            Err(e) => {
                &&& store_after_transition(s, github_issue_id, t) == s
                &&& e == TaskError::NotFound <==> !has_issue(s, github_issue_id)
                &&& has_issue(s, github_issue_id) ==> !valid_source(
                    t.operation(),
                    task_of(s, github_issue_id)->Ok_0.status,
                ) && e == (TaskError::InvalidTransition {
                    attempted: target_of(t.operation()),
                    actual: task_of(s, github_issue_id)->Ok_0.status,
                })
            },
        },
{
    lemma_transition(s, github_issue_id, t);
    if has_issue(s, github_issue_id) {
        let k = issue_index(s, github_issue_id);
        assert(issue_at(s, k, github_issue_id));
        lemma_step(s[k], t);
        if let Ok(next) = transition_outcome(s, github_issue_id, t) {
            let after = store_after_transition(s, github_issue_id, t);
            assert(issue_at(after, k, github_issue_id));
            lemma_issue_index(after, k, github_issue_id);
        }
    }
}

/// No operation succeeds twice in a row on one task: of two requests for the
/// same operation, the one that comes second finds the task moved on, is
/// rejected with the status it met, and changes nothing.
pub proof fn law_repeated_operation_is_rejected(
    s: Seq<TaskView>,
    github_issue_id: int,
    first: TransitionView,
    second: TransitionView,
)
    requires
        store_wf(s),
        first.operation() == second.operation(),
        transition_outcome(s, github_issue_id, first) is Ok,
    ensures
        ({
            let mid = store_after_transition(s, github_issue_id, first);
            &&& transition_outcome(mid, github_issue_id, second) == Err::<TaskView, TaskError>(
                TaskError::InvalidTransition {
                    attempted: target_of(first.operation()),
                    actual: target_of(first.operation()),
                },
            )
            &&& store_after_transition(mid, github_issue_id, second) == mid
        }),
{
    law_status_follows_table(s, github_issue_id, first);
}

/// A release clears all three student fields in the same step that makes the
/// task open: no state lies between the two.
pub proof fn law_release_clears_student(s: Seq<TaskView>, github_issue_id: int)
    requires
        store_wf(s),
        transition_outcome(s, github_issue_id, TransitionView::ReleaseTask) is Ok,
    ensures
        ({
            let after = store_after_transition(s, github_issue_id, TransitionView::ReleaseTask);
            let task = task_of(after, github_issue_id);
            &&& task is Ok
            &&& task->Ok_0.status == TaskStatus::Open
            &&& task->Ok_0.student_github_login is None
            &&& task->Ok_0.student_name is None
            &&& task->Ok_0.student_github_id is None
        }),
{
    law_status_follows_table(s, github_issue_id, TransitionView::ReleaseTask);
}

/// A search for the tasks being worked on finds tasks of the repository and
/// the mentor that are requested, assigned or waiting for confirmation, and
/// every one of them. Open, done and closed tasks are never among them.
pub proof fn law_search_finds_active_tasks(
    s: Seq<TaskView>,
    github_repo_id: int,
    mentor_login: Seq<char>,
)
    ensures
        ({
            let found = search_result(s, github_repo_id, mentor_login, processing_statuses());
            &&& forall|k: int|
                0 <= k < found.len() ==> {
                    &&& is_processing((#[trigger] found[k]).status)
                    &&& found[k].github_repo_id == github_repo_id
                    &&& found[k].mentor_login == Some(mentor_login)
                    &&& s.contains(found[k])
                }
            &&& forall|i: int|
                0 <= i < s.len() && is_processing((#[trigger] s[i]).status) && s[i].github_repo_id
                    == github_repo_id && s[i].mentor_login == Some(mentor_login)
                    ==> found.contains(s[i])
        }),
{
    let statuses = processing_statuses();
    let hit = |task: TaskView| search_hit(task, github_repo_id, mentor_login, statuses);
    let found = s.filter(hit);
    assert(statuses[0] == TaskStatus::AssignRequested);
    assert(statuses[1] == TaskStatus::Assigned);
    assert(statuses[2] == TaskStatus::CompleteRequested);
    assert forall|k: int| 0 <= k < found.len() implies {
        &&& is_processing((#[trigger] found[k]).status)
        &&& found[k].github_repo_id == github_repo_id
        &&& found[k].mentor_login == Some(mentor_login)
        &&& s.contains(found[k])
    } by {
        s.lemma_filter_pred(hit, k);
        assert(found.contains(found[k]));
        s.lemma_filter_contains_rev(hit, found[k]);
    }
    assert forall|i: int|
        0 <= i < s.len() && is_processing((#[trigger] s[i]).status) && s[i].github_repo_id
            == github_repo_id && s[i].mentor_login == Some(mentor_login) implies found.contains(
        s[i],
    ) by {
        assert(hit(s[i]));
        s.lemma_filter_contains(hit, i);
    }
}

/// At most one score record exists per contributor and period.
pub proof fn law_one_record_per_key(s: Seq<ScoreView>, i: int, j: int)
    requires
        unique_keys(s),
        0 <= i < s.len(),
        0 <= j < s.len(),
        i != j,
    ensures
        s[i].year != s[j].year || s[i].month != s[j].month || s[i].github_login
            != s[j].github_login,
{
    if s[i].has_key(s[j].year, s[j].month, s[j].github_login) {
        assert(i == j);
    }
}

/// An award keeps one record per contributor and period, and any failure of
/// an award is a storage error that leaves the ledger as it was.
pub proof fn law_award_keeps_one_record_per_key(
    s: Seq<ScoreView>,
    login: Seq<char>,
    github_id: int,
    student_name: Seq<char>,
    points: int,
    year: int,
    month: int,
)
    requires
        unique_keys(s),
    ensures
        unique_keys(ledger_after_award(s, login, github_id, student_name, points, year, month)),
        match award_outcome(s, login, github_id, student_name, points, year, month) {
            Ok(rec) => current_record(
                ledger_after_award(s, login, github_id, student_name, points, year, month),
                year,
                month,
                login,
            ) == Some(rec),
            Err(e) => e == TaskError::StorageError && ledger_after_award(
                s,
                login,
                github_id,
                student_name,
                points,
                year,
                month,
            ) == s,
        },
{
    let after = ledger_after_award(s, login, github_id, student_name, points, year, month);
    match award_outcome(s, login, github_id, student_name, points, year, month) {
        Ok(rec) => {
            if has_record(s, year, month, login) {
                let k = record_index(s, year, month, login);
                assert(key_at(s, k, year, month, login));
                lemma_update_keeps_unique(s, k, rec);
                assert(key_at(after, k, year, month, login));
                lemma_record_index(after, k, year, month, login);
            } else {
                lemma_push_keeps_unique(s, rec);
                assert(key_at(after, s.len() as int, year, month, login));
                lemma_record_index(after, s.len() as int, year, month, login);
            }
        },
        Err(_) => {},
    }
}

/// An award to a contributor without any record opens a record with a
/// carryover of 0.
pub proof fn law_first_award_has_no_carryover(
    s: Seq<ScoreView>,
    login: Seq<char>,
    github_id: int,
    student_name: Seq<char>,
    points: int,
    year: int,
    month: int,
)
    requires
        !has_login(s, login),
    ensures
        award_outcome(s, login, github_id, student_name, points, year, month) == Ok::<
            ScoreView,
            TaskError,
        >(opening_record(login, github_id, student_name, points, year, month, 0)),
        ledger_after_award(s, login, github_id, student_name, points, year, month) == s.push(
            opening_record(login, github_id, student_name, points, year, month, 0),
        ),
{
    if has_record(s, year, month, login) {
        let k = record_index(s, year, month, login);
        assert(key_at(s, k, year, month, login));
        assert(login_at(s, k, login));
    }
}

/// An award in a period without a record of the contributor carries over the
/// balance of the contributor's most recent record, whatever its period.
pub proof fn law_carryover_is_latest_balance(
    s: Seq<ScoreView>,
    i: int,
    login: Seq<char>,
    github_id: int,
    student_name: Seq<char>,
    points: int,
    year: int,
    month: int,
)
    requires
        unique_keys(s),
        is_latest_at(s, i, login),
        !has_record(s, year, month, login),
        fits_score(s[i].balance()),
    ensures
        award_outcome(s, login, github_id, student_name, points, year, month) == Ok::<
            ScoreView,
            TaskError,
        >(opening_record(login, github_id, student_name, points, year, month, s[i].balance())),
{
    lemma_latest_index(s, i, login);
}

/// An award to a contributor whose only record is of an earlier period, be
/// it the month before or years ago, carries over the balance of that
/// record: a gap does not reset the balance.
pub proof fn law_gap_keeps_balance(
    s: Seq<ScoreView>,
    i: int,
    login: Seq<char>,
    github_id: int,
    student_name: Seq<char>,
    points: int,
    year: int,
    month: int,
)
    requires
        unique_keys(s),
        login_at(s, i, login),
        forall|j: int| #[trigger] login_at(s, j, login) ==> j == i,
        s[i].year < year || (s[i].year == year && s[i].month < month),
        fits_score(s[i].balance()),
    ensures
        award_outcome(s, login, github_id, student_name, points, year, month) == Ok::<
            ScoreView,
            TaskError,
        >(opening_record(login, github_id, student_name, points, year, month, s[i].balance())),
        ledger_after_award(s, login, github_id, student_name, points, year, month) == s.push(
            opening_record(login, github_id, student_name, points, year, month, s[i].balance()),
        ),
{
    assert(is_latest_at(s, i, login));
    if has_record(s, year, month, login) {
        let k = record_index(s, year, month, login);
        assert(key_at(s, k, year, month, login));
        assert(login_at(s, k, login));
    }
    law_carryover_is_latest_balance(s, i, login, github_id, student_name, points, year, month);
}

/// The points a contributor has earned in a period: the `new_score` of the
/// record of the period, or nothing without one.
pub open spec fn points_in_period(
    s: Seq<ScoreView>,
    year: int,
    month: int,
    login: Seq<char>,
) -> int {
    match current_record(s, year, month, login) {
        Some(rec) => rec.new_score,
        None => 0,
    }
}

/// Two awards to one contributor in one period are both counted: after the
/// second, the record of the period holds what it held before the first,
/// plus both amounts. No award overwrites another.
pub proof fn law_awards_accumulate(
    s: Seq<ScoreView>,
    login: Seq<char>,
    first_id: int,
    first_name: Seq<char>,
    first: int,
    second_id: int,
    second_name: Seq<char>,
    second: int,
    year: int,
    month: int,
)
    requires
        unique_keys(s),
        award_outcome(s, login, first_id, first_name, first, year, month) is Ok,
        award_outcome(
            ledger_after_award(s, login, first_id, first_name, first, year, month),
            login,
            second_id,
            second_name,
            second,
            year,
            month,
        ) is Ok,
    ensures
        ({
            let mid = ledger_after_award(s, login, first_id, first_name, first, year, month);
            let end = ledger_after_award(mid, login, second_id, second_name, second, year, month);
            &&& unique_keys(end)
            &&& points_in_period(mid, year, month, login) == points_in_period(
                s,
                year,
                month,
                login,
            ) + first
            &&& points_in_period(end, year, month, login) == points_in_period(
                s,
                year,
                month,
                login,
            ) + first + second
            &&& current_record(end, year, month, login) is Some
        }),
{
    let mid = ledger_after_award(s, login, first_id, first_name, first, year, month);
    law_award_keeps_one_record_per_key(s, login, first_id, first_name, first, year, month);
    law_award_keeps_one_record_per_key(mid, login, second_id, second_name, second, year, month);
    if has_record(s, year, month, login) {
        let k = record_index(s, year, month, login);
        assert(key_at(s, k, year, month, login));
    }
    assert(has_record(mid, year, month, login));
    let m = record_index(mid, year, month, login);
    assert(key_at(mid, m, year, month, login));
}

/// An award that is dated in a period of its own does not touch what the
/// contributor has in another period.
pub proof fn law_award_leaves_other_periods(
    s: Seq<ScoreView>,
    login: Seq<char>,
    github_id: int,
    student_name: Seq<char>,
    points: int,
    year: int,
    month: int,
    other_year: int,
    other_month: int,
    other_login: Seq<char>,
)
    requires
        unique_keys(s),
        other_year != year || other_month != month || other_login != login,
    ensures
        current_record(
            ledger_after_award(s, login, github_id, student_name, points, year, month),
            other_year,
            other_month,
            other_login,
        ) == current_record(s, other_year, other_month, other_login),
{
    let after = ledger_after_award(s, login, github_id, student_name, points, year, month);
    law_award_keeps_one_record_per_key(s, login, github_id, student_name, points, year, month);
    if has_record(s, year, month, login) {
        let k = record_index(s, year, month, login);
        assert(key_at(s, k, year, month, login));
    }
    if has_record(s, other_year, other_month, other_login) {
        let o = record_index(s, other_year, other_month, other_login);
        assert(key_at(s, o, other_year, other_month, other_login));
        assert(key_at(after, o, other_year, other_month, other_login));
        lemma_record_index(after, o, other_year, other_month, other_login);
    } else if has_record(after, other_year, other_month, other_login) {
        let o = record_index(after, other_year, other_month, other_login);
        assert(key_at(after, o, other_year, other_month, other_login));
        assert(key_at(s, o, other_year, other_month, other_login));
    }
}

/// Confirming a task as done keeps every state valid and moves no status
/// but along an edge: it succeeds from `CompleteRequested` only, and then
/// the task is `Done` and the student's record of the period holds the
/// score of the task on top of what it held.
pub proof fn law_done_scores_once(s: AppStateView, github_issue_id: int, year: int, month: int)
    requires
        s.wf(),
    ensures
        state_after_done(s, github_issue_id, year, month).wf(),
        follows_edges(s.tasks, state_after_done(s, github_issue_id, year, month).tasks),
        match done_outcome(s, github_issue_id, year, month) {
            Ok(next) => {
                let after = state_after_done(s, github_issue_id, year, month);
                let login = next.student_github_login->Some_0;
                &&& task_of(s.tasks, github_issue_id) is Ok
                &&& task_of(s.tasks, github_issue_id)->Ok_0.status == TaskStatus::CompleteRequested
                &&& next == task_of(s.tasks, github_issue_id)->Ok_0.after(
                    TransitionView::InternDone,
                )
                &&& task_of(after.tasks, github_issue_id) == Ok::<TaskView, TaskError>(next)
                &&& next.status == TaskStatus::Done
                &&& next.assigned()
                &&& points_in_period(after.scores, year, month, login) == points_in_period(
                    s.scores,
                    year,
                    month,
                    login,
                ) + next.score
            },
            Err(_) => state_after_done(s, github_issue_id, year, month) == s,
        },
{
    law_status_follows_table(s.tasks, github_issue_id, TransitionView::InternDone);
    match done_outcome(s, github_issue_id, year, month) {
        Ok(next) => {
            let k = issue_index(s.tasks, github_issue_id);
            assert(issue_at(s.tasks, k, github_issue_id));
            assert(s.tasks[k].wf());
            let login = next.student_github_login->Some_0;
            law_award_keeps_one_record_per_key(
                s.scores,
                login,
                next.student_github_id->Some_0,
                next.student_name->Some_0,
                next.score,
                year,
                month,
            );
            if has_record(s.scores, year, month, login) {
                let r = record_index(s.scores, year, month, login);
                assert(key_at(s.scores, r, year, month, login));
            }
        },
        Err(_) => {},
    }
}

/// A task is scored once: confirming it as done a second time, in whatever
/// period, is rejected and leaves tasks and ledger as they were.
pub proof fn law_done_twice_scores_once(
    s: AppStateView,
    github_issue_id: int,
    year: int,
    month: int,
    later_year: int,
    later_month: int,
)
    requires
        s.wf(),
        done_outcome(s, github_issue_id, year, month) is Ok,
    ensures
        ({
            let mid = state_after_done(s, github_issue_id, year, month);
            &&& done_outcome(mid, github_issue_id, later_year, later_month) == Err::<
                TaskView,
                TaskError,
            >(
                TaskError::InvalidTransition {
                    attempted: TaskStatus::Done,
                    actual: TaskStatus::Done,
                },
            )
            &&& state_after_done(mid, github_issue_id, later_year, later_month) == mid
        }),
{
    law_done_scores_once(s, github_issue_id, year, month);
    law_repeated_operation_is_rejected(
        s.tasks,
        github_issue_id,
        TransitionView::InternDone,
        TransitionView::InternDone,
    );
}

/// An award that fails while a task is confirmed as done leaves the task in
/// `CompleteRequested`, and the ledger as it was: the command can be given
/// again.
pub proof fn law_failed_award_keeps_task(
    s: AppStateView,
    github_issue_id: int,
    year: int,
    month: int,
)
    requires
        s.wf(),
        task_of(s.tasks, github_issue_id) is Ok,
        task_of(s.tasks, github_issue_id)->Ok_0.status == TaskStatus::CompleteRequested,
        done_award(s.scores, task_of(s.tasks, github_issue_id)->Ok_0, year, month) is Err,
    ensures
        done_outcome(s, github_issue_id, year, month) == Err::<TaskView, TaskError>(
            TaskError::StorageError,
        ),
        state_after_done(s, github_issue_id, year, month) == s,
        task_of(
            state_after_done(s, github_issue_id, year, month).tasks,
            github_issue_id,
        )->Ok_0.status == TaskStatus::CompleteRequested,
{
    let task = task_of(s.tasks, github_issue_id)->Ok_0;
    law_award_keeps_one_record_per_key(
        s.scores,
        task.student_github_login->Some_0,
        task.student_github_id->Some_0,
        task.student_name->Some_0,
        task.score,
        year,
        month,
    );
}

/// Two tasks of one student that are confirmed as done in one period, one
/// after the other, are both counted: the student's record of the period
/// holds what it held before, plus the scores of both tasks.
pub proof fn law_two_dones_both_counted(
    s: AppStateView,
    first_issue: int,
    second_issue: int,
    year: int,
    month: int,
)
    requires
        s.wf(),
        first_issue != second_issue,
        done_outcome(s, first_issue, year, month) is Ok,
        done_outcome(state_after_done(s, first_issue, year, month), second_issue, year, month)
            is Ok,
        task_of(s.tasks, first_issue)->Ok_0.student_github_login == task_of(
            s.tasks,
            second_issue,
        )->Ok_0.student_github_login,
    ensures
        ({
            let mid = state_after_done(s, first_issue, year, month);
            let end = state_after_done(mid, second_issue, year, month);
            let first = task_of(s.tasks, first_issue)->Ok_0;
            let second = task_of(s.tasks, second_issue)->Ok_0;
            let login = first.student_github_login->Some_0;
            &&& end.wf()
            &&& task_of(end.tasks, first_issue)->Ok_0.status == TaskStatus::Done
            &&& task_of(end.tasks, second_issue)->Ok_0.status == TaskStatus::Done
            &&& points_in_period(end.scores, year, month, login) == points_in_period(
                s.scores,
                year,
                month,
                login,
            ) + first.score + second.score
        }),
{
    let mid = state_after_done(s, first_issue, year, month);
    let end = state_after_done(mid, second_issue, year, month);
    law_done_scores_once(s, first_issue, year, month);
    law_done_scores_once(mid, second_issue, year, month);
    let a = issue_index(s.tasks, first_issue);
    assert(issue_at(s.tasks, a, first_issue));
    let b = issue_index(mid.tasks, second_issue);
    assert(issue_at(mid.tasks, b, second_issue));
    assert(a != b);
    assert(mid.tasks[b] == s.tasks[b]);
    assert(issue_at(s.tasks, b, second_issue));
    lemma_issue_index(s.tasks, b, second_issue);
    assert(end.tasks[a] == mid.tasks[a]);
    assert(issue_at(end.tasks, a, first_issue));
    lemma_issue_index(end.tasks, a, first_issue);
}

} // verus!
