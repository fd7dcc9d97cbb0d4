//! The books balance: what the ledger credits to a contributor within the
//! periods is what the contributor's finished tasks are worth. No task is
//! done without its score in the ledger, and no score is in the ledger twice.
use crate::score::ScoreView;
use crate::score_stg::{award_outcome, has_record, key_at, ledger_after_award, record_index};
use crate::status::TaskStatus;
use crate::task::{lemma_step, TaskView, TransitionView};
use crate::task_router::{done_outcome, state_after_done, AppStateView};
use crate::task_stg::{
    create_outcome, has_issue, issue_at, issue_index, store_after_create, store_after_transition,
    store_wf, transition_outcome,
};
use vstd::prelude::*;

verus! {

/// The sum of the shares of the items of `s`.
pub open spec fn total<A>(s: Seq<A>, share: spec_fn(A) -> int) -> int
    decreases s.len(),
{
    if s.len() == 0 {
        0
    } else {
        total(s.drop_last(), share) + share(s.last())
    }
}

/// What a record adds to the points of `login`: its `new_score`, if it is a
/// record of `login`.
pub open spec fn record_share(login: Seq<char>) -> spec_fn(ScoreView) -> int {
    |r: ScoreView|
        if r.github_login == login {
            r.new_score
        } else {
            0
        }
}

/// What a task adds to the points of `login`: its score, if it is done or
/// closed and `login` is its student.
pub open spec fn task_share(login: Seq<char>) -> spec_fn(TaskView) -> int {
    |t: TaskView|
        if (t.status == TaskStatus::Done || t.status == TaskStatus::Closed)
            && t.student_github_login == Some(login) {
            t.score
        } else {
            0
        }
}

/// The points that the ledger credits to `login` within the periods.
pub open spec fn earned(scores: Seq<ScoreView>, login: Seq<char>) -> int {
    total(scores, record_share(login))
}

/// The points that the finished tasks of `login` are worth.
pub open spec fn finished(tasks: Seq<TaskView>, login: Seq<char>) -> int {
    total(tasks, task_share(login))
}

/// Whether the ledger credits to every contributor what the contributor's
/// finished tasks are worth.
pub open spec fn balanced(s: AppStateView) -> bool {
    forall|login: Seq<char>| #[trigger] earned(s.scores, login) == finished(s.tasks, login)
}

/// An item added at the end adds its share.
pub proof fn lemma_total_push<A>(s: Seq<A>, a: A, share: spec_fn(A) -> int)
    ensures
        total(s.push(a), share) == total(s, share) + share(a),
{
    assert(s.push(a).drop_last() =~= s);
}

/// An item replaced takes its share along and leaves that of its successor.
pub proof fn lemma_total_update<A>(s: Seq<A>, i: int, a: A, share: spec_fn(A) -> int)
    requires
        0 <= i < s.len(),
    ensures
        total(s.update(i, a), share) == total(s, share) - share(s[i]) + share(a),
    decreases s.len(),
{
    if i == s.len() - 1 {
        assert(s.update(i, a).drop_last() =~= s.drop_last());
    } else {
        lemma_total_update(s.drop_last(), i, a, share);
        assert(s.update(i, a).drop_last() =~= s.drop_last().update(i, a));
    }
}

/// Without tasks and without records the books balance.
pub proof fn law_empty_books_balance(s: AppStateView)
    requires
        s.tasks.len() == 0,
        s.scores.len() == 0,
    ensures
        balanced(s),
{
}

/// A new task is worth nothing to anybody until it is done.
pub proof fn law_create_keeps_finished(
    tasks: Seq<TaskView>,
    github_repo_id: int,
    github_issue_id: int,
    score: int,
    login: Seq<char>,
)
    ensures
        finished(store_after_create(tasks, github_repo_id, github_issue_id, score), login)
            == finished(tasks, login),
{
    match create_outcome(tasks, github_repo_id, github_issue_id, score) {
        Ok(task) => {
            lemma_total_push(tasks, task, task_share(login));
        },
        Err(_) => {},
    }
}

/// A transition other than the confirmation that a task is done leaves what
/// anybody's finished tasks are worth as it was: it moves a task that is not
/// finished to a status in which it is not finished, or closes a task that
/// is done.
pub proof fn law_transition_keeps_finished(
    tasks: Seq<TaskView>,
    github_issue_id: int,
    t: TransitionView,
    login: Seq<char>,
)
    requires
        t != TransitionView::InternDone,
    ensures
        finished(store_after_transition(tasks, github_issue_id, t), login) == finished(
            tasks,
            login,
        ),
{
    match transition_outcome(tasks, github_issue_id, t) {
        Ok(next) => {
            let k = issue_index(tasks, github_issue_id);
            assert(issue_at(tasks, k, github_issue_id));
            lemma_step(tasks[k], t);
            lemma_total_update(tasks, k, next, task_share(login));
        },
        Err(_) => {},
    }
}

/// An award adds its points to what the ledger credits to the contributor,
/// and to nobody else. A failed award adds nothing.
pub proof fn law_award_adds_points(
    scores: Seq<ScoreView>,
    login: Seq<char>,
    github_id: int,
    student_name: Seq<char>,
    points: int,
    year: int,
    month: int,
    other: Seq<char>,
)
    ensures
        earned(
            ledger_after_award(scores, login, github_id, student_name, points, year, month),
            other,
        ) == earned(scores, other) + if award_outcome(
            scores,
            login,
            github_id,
            student_name,
            points,
            year,
            month,
        ) is Ok && other == login {
            points
        } else {
            0
        },
{
    match award_outcome(scores, login, github_id, student_name, points, year, month) {
        Ok(rec) => {
            if has_record(scores, year, month, login) {
                let k = record_index(scores, year, month, login);
                assert(key_at(scores, k, year, month, login));
                lemma_total_update(scores, k, rec, record_share(other));
            } else {
                lemma_total_push(scores, rec, record_share(other));
            }
        },
        Err(_) => {},
    }
}

/// Confirming a task as done keeps the books balanced: the score of the task
/// is credited to its student in the same step that makes the task count as
/// finished, or neither happens.
pub proof fn law_done_keeps_balance(s: AppStateView, github_issue_id: int, year: int, month: int)
    requires
        store_wf(s.tasks),
        balanced(s),
    ensures
        balanced(state_after_done(s, github_issue_id, year, month)),
{
    let after = state_after_done(s, github_issue_id, year, month);
    match done_outcome(s, github_issue_id, year, month) {
        Ok(next) => {
            let k = issue_index(s.tasks, github_issue_id);
            assert(has_issue(s.tasks, github_issue_id));
            assert(issue_at(s.tasks, k, github_issue_id));
            lemma_step(s.tasks[k], TransitionView::InternDone);
            assert(s.tasks[k].wf());
            let student = next.student_github_login->Some_0;
            assert forall|login: Seq<char>| #[trigger]
                earned(after.scores, login) == finished(after.tasks, login) by {
                assert(earned(s.scores, login) == finished(s.tasks, login));
                lemma_total_update(s.tasks, k, next, task_share(login));
                law_award_adds_points(
                    s.scores,
                    student,
                    next.student_github_id->Some_0,
                    next.student_name->Some_0,
                    next.score,
                    year,
                    month,
                    login,
                );
            }
        },
        Err(_) => {},
    }
}

/// Creating a task keeps the books balanced.
pub proof fn law_create_keeps_balance(
    s: AppStateView,
    github_repo_id: int,
    github_issue_id: int,
    score: int,
)
    requires
        balanced(s),
    ensures
        balanced(
            AppStateView {
                tasks: store_after_create(s.tasks, github_repo_id, github_issue_id, score),
                scores: s.scores,
            },
        ),
{
    let after = AppStateView {
        tasks: store_after_create(s.tasks, github_repo_id, github_issue_id, score),
        scores: s.scores,
    };
    assert forall|login: Seq<char>| #[trigger]
        earned(after.scores, login) == finished(after.tasks, login) by {
        assert(earned(s.scores, login) == finished(s.tasks, login));
        law_create_keeps_finished(s.tasks, github_repo_id, github_issue_id, score, login);
    }
}

/// A transition that leaves the ledger alone keeps the books balanced.
pub proof fn law_transition_keeps_balance(
    s: AppStateView,
    github_issue_id: int,
    t: TransitionView,
)
    requires
        balanced(s),
        t != TransitionView::InternDone,
    ensures
        balanced(
            AppStateView {
                tasks: store_after_transition(s.tasks, github_issue_id, t),
                scores: s.scores,
            },
        ),
{
    let after = AppStateView {
        tasks: store_after_transition(s.tasks, github_issue_id, t),
        scores: s.scores,
    };
    assert forall|login: Seq<char>| #[trigger]
        earned(after.scores, login) == finished(after.tasks, login) by {
        assert(earned(s.scores, login) == finished(s.tasks, login));
        law_transition_keeps_finished(s.tasks, github_issue_id, t, login);
    }
}

} // verus!
