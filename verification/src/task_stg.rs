//! The task repository: one task per issue, created open and changed only by
//! the transitions of the lifecycle. Tasks are never removed.
use crate::errors::TaskError;
use crate::status::{is_edge, TaskStatus};
use crate::task::{created, lemma_step, NewTask, Task, TaskView, Transition, TransitionView};
use vstd::prelude::*;

verus! {

/// Whether position `i` of `s` holds the task of the issue.
pub open spec fn issue_at(s: Seq<TaskView>, i: int, github_issue_id: int) -> bool {
    0 <= i < s.len() && s[i].github_issue_id == github_issue_id
}

/// Whether `s` holds a task of the issue.
pub open spec fn has_issue(s: Seq<TaskView>, github_issue_id: int) -> bool {
    exists|i: int| issue_at(s, i, github_issue_id)
}

/// The position of the task of the issue, where there is one.
pub open spec fn issue_index(s: Seq<TaskView>, github_issue_id: int) -> int {
    choose|i: int| issue_at(s, i, github_issue_id)
}

/// No two tasks of `s` are of the same issue.
pub open spec fn unique_issues(s: Seq<TaskView>) -> bool {
    forall|i: int, j: int|
        #![trigger s[i], s[j]]
        0 <= i < s.len() && 0 <= j < s.len() && s[i].github_issue_id == s[j].github_issue_id ==> i
            == j
}

/// What holds of the tasks of a repository: one task per issue, every task
/// well formed, and ids counted up from 1 in the order of creation.
pub open spec fn store_wf(s: Seq<TaskView>) -> bool {
    &&& unique_issues(s)
    &&& forall|i: int| 0 <= i < s.len() ==> (#[trigger] s[i]).wf() && s[i].id == i + 1
}

/// The task of the issue, or `NotFound`.
pub open spec fn task_of(s: Seq<TaskView>, github_issue_id: int) -> Result<TaskView, TaskError> {
    if has_issue(s, github_issue_id) {
        Ok(s[issue_index(s, github_issue_id)])
    } else {
        Err(TaskError::NotFound)
    }
}

/// The task that a creation adds, or the error it ends with: the store
/// refuses a second task of one issue, and a task beyond the ids it can count.
pub open spec fn create_outcome(
    s: Seq<TaskView>,
    github_repo_id: int,
    github_issue_id: int,
    score: int,
) -> Result<TaskView, TaskError> {
    if has_issue(s, github_issue_id) || s.len() >= u64::MAX {
        Err(TaskError::StorageError)
    } else {
        Ok(created(s.len() as int + 1, github_repo_id, github_issue_id, score))
    }
}

/// The tasks after a creation.
pub open spec fn store_after_create(
    s: Seq<TaskView>,
    github_repo_id: int,
    github_issue_id: int,
    score: int,
) -> Seq<TaskView> {
    match create_outcome(s, github_repo_id, github_issue_id, score) {
        Ok(task) => s.push(task),
        Err(_) => s,
    }
}

/// The task as a transition leaves it, or the error it ends with: `NotFound`
/// where the issue has no task, else what the transition table says.
pub open spec fn transition_outcome(
    s: Seq<TaskView>,
    github_issue_id: int,
    t: TransitionView,
) -> Result<TaskView, TaskError> {
    match task_of(s, github_issue_id) {
        Ok(task) => task.step(t),
        Err(e) => Err(e),
    }
}

/// The tasks after a transition: the task of the issue replaced by its
/// successor, all others as they were. A failed transition changes nothing.
pub open spec fn store_after_transition(
    s: Seq<TaskView>,
    github_issue_id: int,
    t: TransitionView,
) -> Seq<TaskView> {
    match transition_outcome(s, github_issue_id, t) {
        Ok(next) => s.update(issue_index(s, github_issue_id), next),
        Err(_) => s,
    }
}

/// Whether a search for the tasks of a repository and mentor in one of
/// `statuses` finds `task`.
pub open spec fn search_hit(
    task: TaskView,
    github_repo_id: int,
    mentor_login: Seq<char>,
    statuses: Seq<TaskStatus>,
) -> bool {
    task.github_repo_id == github_repo_id && task.mentor_login == Some(mentor_login)
        && statuses.contains(task.status)
}

/// What a search returns: the tasks it finds, in the order of creation.
pub open spec fn search_result(
    s: Seq<TaskView>,
    github_repo_id: int,
    mentor_login: Seq<char>,
    statuses: Seq<TaskStatus>,
) -> Seq<TaskView> {
    s.filter(|task: TaskView| search_hit(task, github_repo_id, mentor_login, statuses))
}

/// Whether the statuses of `after` can be reached from those of `before`
/// without leaving the lifecycle graph: every task is still there, under its
/// issue and id, in the status it had or one edge further; tasks that were
/// added are open.
pub open spec fn follows_edges(before: Seq<TaskView>, after: Seq<TaskView>) -> bool {
    &&& before.len() <= after.len()
    &&& forall|i: int|
        0 <= i < before.len() ==> {
            &&& (#[trigger] after[i]).github_issue_id == before[i].github_issue_id
            &&& after[i].id == before[i].id
            &&& after[i].status == before[i].status || is_edge(before[i].status, after[i].status)
        }
    &&& forall|i: int|
        before.len() <= i < after.len() ==> (#[trigger] after[i]).status == TaskStatus::Open
}

/// The views of the tasks of a repository, in the order of creation.
pub open spec fn views_of(tasks: Seq<Task>) -> Seq<TaskView> {
    tasks.map_values(|t: Task| t@)
}

/// With one task per issue, a position that holds the issue is the position.
pub proof fn lemma_issue_index(s: Seq<TaskView>, i: int, github_issue_id: int)
    requires
        unique_issues(s),
        issue_at(s, i, github_issue_id),
    ensures
        has_issue(s, github_issue_id),
        issue_index(s, github_issue_id) == i,
        task_of(s, github_issue_id) == Ok::<TaskView, TaskError>(s[i]),
{
    let k = issue_index(s, github_issue_id);
    assert(issue_at(s, k, github_issue_id));
    assert(s[k].github_issue_id == s[i].github_issue_id);
}

/// A creation keeps the repository valid and adds an open task at most.
pub proof fn lemma_create(s: Seq<TaskView>, github_repo_id: int, github_issue_id: int, score: int)
    requires
        store_wf(s),
    ensures
        store_wf(store_after_create(s, github_repo_id, github_issue_id, score)),
        follows_edges(s, store_after_create(s, github_repo_id, github_issue_id, score)),
{
    let after = store_after_create(s, github_repo_id, github_issue_id, score);
    match create_outcome(s, github_repo_id, github_issue_id, score) {
        Ok(task) => {
            assert forall|i: int, j: int|
                #![trigger after[i], after[j]]
                0 <= i < after.len() && 0 <= j < after.len() && after[i].github_issue_id
                    == after[j].github_issue_id implies i == j by {
                if i < s.len() && j < s.len() {
                    assert(s[i] == after[i] && s[j] == after[j]);
                } else if i < s.len() {
                    assert(issue_at(s, i, github_issue_id));
                } else if j < s.len() {
                    assert(issue_at(s, j, github_issue_id));
                }
            }
            assert forall|i: int| 0 <= i < after.len() implies (#[trigger] after[i]).wf()
                && after[i].id == i + 1 by {
                if i < s.len() {
                    assert(s[i] == after[i]);
                }
            }
            assert forall|i: int| 0 <= i < s.len() implies (#[trigger] after[i]).github_issue_id
                == s[i].github_issue_id && after[i].id == s[i].id && after[i].status
                == s[i].status by {
                assert(s[i] == after[i]);
            }
        },
        Err(_) => {},
    }
}

/// A transition keeps the repository valid, and moves the status of one task
/// along one edge of the lifecycle at most.
pub proof fn lemma_transition(s: Seq<TaskView>, github_issue_id: int, t: TransitionView)
    requires
        store_wf(s),
    ensures
        store_wf(store_after_transition(s, github_issue_id, t)),
        follows_edges(s, store_after_transition(s, github_issue_id, t)),
{
    let after = store_after_transition(s, github_issue_id, t);
    match transition_outcome(s, github_issue_id, t) {
        Ok(next) => {
            let k = issue_index(s, github_issue_id);
            assert(issue_at(s, k, github_issue_id));
            lemma_step(s[k], t);
            assert forall|i: int, j: int|
                #![trigger after[i], after[j]]
                0 <= i < after.len() && 0 <= j < after.len() && after[i].github_issue_id
                    == after[j].github_issue_id implies i == j by {
                assert(s[i].github_issue_id == s[j].github_issue_id);
            }
            assert forall|i: int| 0 <= i < after.len() implies (#[trigger] after[i]).wf()
                && after[i].id == i + 1 by {
                assert(s[i].wf() && s[i].id == i + 1);
            }
            assert forall|i: int| 0 <= i < s.len() implies {
                &&& (#[trigger] after[i]).github_issue_id == s[i].github_issue_id
                &&& after[i].id == s[i].id
                &&& after[i].status == s[i].status || is_edge(s[i].status, after[i].status)
            } by {
                if i != k {
                    assert(after[i] == s[i]);
                }
            }
        },
        Err(_) => {},
    }
}

/// The task repository. It never holds two tasks of one issue, it holds
/// well-formed tasks only, and it never drops one.
pub struct TaskStorage {
    tasks: Vec<Task>,
}

impl View for TaskStorage {
    type V = Seq<TaskView>;

    closed spec fn view(&self) -> Seq<TaskView> {
        views_of(self.tasks@)
    }
}

fn holds_status(statuses: &Vec<TaskStatus>, status: TaskStatus) -> (yes: bool)
    ensures
        yes == statuses@.contains(status),
{
    let mut i: usize = 0;
    while i < statuses.len()
        invariant
            i <= statuses.len(),
            forall|j: int| 0 <= j < i ==> statuses@[j] != status,
        decreases statuses.len() - i,
    {
        if statuses[i] == status {
            return true;
        }
        i += 1;
    }
    false
}

fn is_search_hit(
    task: &Task,
    github_repo_id: i64,
    mentor_login: &String,
    statuses: &Vec<TaskStatus>,
) -> (yes: bool)
    ensures
        yes == search_hit(task@, github_repo_id as int, mentor_login@, statuses@),
{
    if task.github_repo_id != github_repo_id {
        return false;
    }
    let owned = match &task.mentor_login {
        Some(login) => *login == *mentor_login,
        None => false,
    };
    owned && holds_status(statuses, task.status)
}

impl TaskStorage {
    /// What holds of every repository.
    #[verifier::type_invariant]
    pub open spec fn valid(&self) -> bool {
        store_wf(self@)
    }

    /// An empty repository.
    pub fn new() -> (store: TaskStorage)
        ensures
            store@ == Seq::<TaskView>::empty(),
    {
        TaskStorage { tasks: Vec::new() }
    }

    /// The number of tasks.
    pub fn len(&self) -> (n: usize)
        ensures
            n == self@.len(),
            store_wf(self@),
    {
        proof {
            use_type_invariant(self);
        }
        self.tasks.len()
    }

    /// All tasks, in the order of creation.
    pub fn tasks(&self) -> (all: Vec<Task>)
        ensures
            views_of(all@) == self@,
            store_wf(self@),
    {
        proof {
            use_type_invariant(self);
        }
        let mut all: Vec<Task> = Vec::new();
        let mut i: usize = 0;
        while i < self.tasks.len()
            invariant
                i <= self.tasks.len(),
                all@ == self.tasks@.take(i as int),
            decreases self.tasks.len() - i,
        {
            all.push(self.tasks[i].clone());
            i += 1;
            proof {
                assert(all@ =~= self.tasks@.take(i as int));
            }
        }
        proof {
            assert(self.tasks@.take(i as int) =~= self.tasks@);
        }
        all
    }

    fn position(&self, github_issue_id: i64) -> (found: Option<usize>)
        ensures
            match found {
                Some(i) => issue_at(self@, i as int, github_issue_id as int),
                None => !has_issue(self@, github_issue_id as int),
            },
    {
        let mut i: usize = 0;
        while i < self.tasks.len()
            invariant
                i <= self.tasks.len(),
                forall|j: int| 0 <= j < i ==> !issue_at(self@, j, github_issue_id as int),
            decreases self.tasks.len() - i,
        {
            if self.tasks[i].github_issue_id == github_issue_id {
                return Some(i);
            }
            i += 1;
        }
        None
    }

    /// Creates the task of an issue: open, with nobody named on it, under
    /// the next id. The result is the task as stored.
    pub fn create_task(&mut self, new_task: NewTask) -> (task: Result<Task, TaskError>)
        ensures
            store_wf(final(self)@),
            final(self)@ == store_after_create(
                old(self)@,
                new_task.github_repo_id as int,
                new_task.github_issue_id as int,
                new_task.score as int,
            ),
            match create_outcome(
                old(self)@,
                new_task.github_repo_id as int,
                new_task.github_issue_id as int,
                new_task.score as int,
            ) {
                Ok(t) => task is Ok && task->Ok_0@ == t,
                Err(e) => task == Err::<Task, TaskError>(e),
            },
    {
        proof {
            use_type_invariant(&*self);
            lemma_create(
                self@,
                new_task.github_repo_id as int,
                new_task.github_issue_id as int,
                new_task.score as int,
            );
        }
        if self.position(new_task.github_issue_id).is_some() {
            return Err(TaskError::StorageError);
        }
        let count = self.tasks.len() as u64;
        if count == u64::MAX {
            return Err(TaskError::StorageError);
        }
        let ghost before = self@;
        let task = Task::new(count + 1, new_task);
        let copy = task.clone();
        // `push` may unwind, and the repository has to be valid even then:
        // the tasks are taken out for the push and put back after it.
        let mut tasks: Vec<Task> = Vec::new();
        core::mem::swap(&mut self.tasks, &mut tasks);
        tasks.push(task);
        proof {
            assert(views_of(tasks@) =~= before.push(copy@));
        }
        core::mem::swap(&mut self.tasks, &mut tasks);
        Ok(copy)
    }

    /// The task of an issue, or `NotFound`.
    pub fn find_task_by_issue_id(&self, github_issue_id: i64) -> (task: Result<Task, TaskError>)
        ensures
            store_wf(self@),
            match task_of(self@, github_issue_id as int) {
                Ok(t) => task is Ok && task->Ok_0@ == t,
                Err(e) => task == Err::<Task, TaskError>(e),
            },
    {
        proof {
            use_type_invariant(self);
        }
        match self.position(github_issue_id) {
            Some(i) => {
                proof {
                    lemma_issue_index(self@, i as int, github_issue_id as int);
                }
                Ok(self.tasks[i].clone())
            },
            None => Err(TaskError::NotFound),
        }
    }

    /// The tasks of a repository and mentor whose status is one of
    /// `statuses`, in the order of creation.
    pub fn find_tasks_by_status(
        &self,
        github_repo_id: i64,
        mentor_login: &String,
        statuses: &Vec<TaskStatus>,
    ) -> (found: Vec<Task>)
        ensures
            views_of(found@) == search_result(
                self@,
                github_repo_id as int,
                mentor_login@,
                statuses@,
            ),
    {
        let ghost hit = |task: TaskView|
            search_hit(task, github_repo_id as int, mentor_login@, statuses@);
        let mut found: Vec<Task> = Vec::new();
        let mut i: usize = 0;
        proof {
            reveal(Seq::filter);
            assert(self@.take(0) =~= Seq::<TaskView>::empty());
            assert(views_of(found@) =~= self@.take(0).filter(hit));
        }
        while i < self.tasks.len()
            invariant
                i <= self.tasks.len(),
                hit == |task: TaskView|
                    search_hit(task, github_repo_id as int, mentor_login@, statuses@),
                views_of(found@) == self@.take(i as int).filter(hit),
            decreases self.tasks.len() - i,
        {
            let ghost before = found@;
            proof {
                reveal(Seq::filter);
                assert(self@.take(i + 1).drop_last() =~= self@.take(i as int));
                assert(self@.take(i + 1).last() == self@[i as int]);
            }
            if is_search_hit(&self.tasks[i], github_repo_id, mentor_login, statuses) {
                found.push(self.tasks[i].clone());
                proof {
                    assert(views_of(found@) =~= views_of(before).push(self@[i as int]));
                }
            }
            i += 1;
        }
        proof {
            assert(self@.take(i as int) =~= self@);
        }
        found
    }

    /// Applies a transition to the task of an issue, as one step: the status
    /// is read, checked and written with nothing in between. The result is
    /// the task as it stands after the transition.
    ///
    /// Fails with `NotFound` where the issue has no task, and with
    /// `InvalidTransition` where the task is not in a status the operation
    /// starts from. A failed transition changes nothing.
    pub fn transition(&mut self, github_issue_id: i64, t: Transition) -> (task: Result<
        Task,
        TaskError,
    >)
        ensures
            store_wf(final(self)@),
            follows_edges(old(self)@, final(self)@),
            final(self)@ == store_after_transition(old(self)@, github_issue_id as int, t@),
            match transition_outcome(old(self)@, github_issue_id as int, t@) {
                Ok(next) => task is Ok && task->Ok_0@ == next,
                Err(e) => task == Err::<Task, TaskError>(e),
            },
    {
        proof {
            use_type_invariant(&*self);
            lemma_transition(self@, github_issue_id as int, t@);
        }
        let i = match self.position(github_issue_id) {
            Some(i) => i,
            None => {
                return Err(TaskError::NotFound);
            },
        };
        proof {
            lemma_issue_index(self@, i as int, github_issue_id as int);
        }
        let ghost before = self@;
        let mut task = self.tasks[i].clone();
        match task.apply(t) {
            Ok(()) => {
                let copy = task.clone();
                // The tasks are taken out for the write, as for a push.
                let mut tasks: Vec<Task> = Vec::new();
                core::mem::swap(&mut self.tasks, &mut tasks);
                tasks.set(i, task);
                proof {
                    assert(views_of(tasks@) =~= before.update(i as int, copy@));
                }
                core::mem::swap(&mut self.tasks, &mut tasks);
                Ok(copy)
            },
            Err(e) => Err(e),
        }
    }

    /// `Open → AssignRequested` for the task of the issue: records the mentor
    /// and the student's name.
    pub fn request_assign(
        &mut self,
        github_issue_id: i64,
        mentor_login: String,
        student_name: String,
    ) -> (task: Result<Task, TaskError>)
        ensures
            store_wf(final(self)@),
            follows_edges(old(self)@, final(self)@),
            final(self)@ == store_after_transition(
                old(self)@,
                github_issue_id as int,
                TransitionView::RequestAssign {
                    mentor_login: mentor_login@,
                    student_name: student_name@,
                },
            ),
            match transition_outcome(
                old(self)@,
                github_issue_id as int,
                TransitionView::RequestAssign {
                    mentor_login: mentor_login@,
                    student_name: student_name@,
                },
            ) {
                Ok(next) => task is Ok && task->Ok_0@ == next,
                Err(e) => task == Err::<Task, TaskError>(e),
            },
    {
        self.transition(github_issue_id, Transition::RequestAssign { mentor_login, student_name })
    }

    /// `AssignRequested → Assigned` for the task of the issue: completes the
    /// student's identity with login and id.
    pub fn intern_approve(
        &mut self,
        github_issue_id: i64,
        student_github_login: String,
        student_github_id: i64,
    ) -> (task: Result<Task, TaskError>)
        ensures
            store_wf(final(self)@),
            follows_edges(old(self)@, final(self)@),
            final(self)@ == store_after_transition(
                old(self)@,
                github_issue_id as int,
                TransitionView::InternApprove {
                    student_github_login: student_github_login@,
                    student_github_id: student_github_id as int,
                },
            ),
            match transition_outcome(
                old(self)@,
                github_issue_id as int,
                TransitionView::InternApprove {
                    student_github_login: student_github_login@,
                    student_github_id: student_github_id as int,
                },
            ) {
                Ok(next) => task is Ok && task->Ok_0@ == next,
                Err(e) => task == Err::<Task, TaskError>(e),
            },
    {
        self.transition(
            github_issue_id,
            Transition::InternApprove { student_github_login, student_github_id },
        )
    }

    /// `AssignRequested | Assigned → Open` for the task of the issue: clears
    /// the three student fields together with the change of status.
    pub fn release_task(&mut self, github_issue_id: i64) -> (task: Result<Task, TaskError>)
        ensures
            store_wf(final(self)@),
            follows_edges(old(self)@, final(self)@),
            final(self)@ == store_after_transition(
                old(self)@,
                github_issue_id as int,
                TransitionView::ReleaseTask,
            ),
            match transition_outcome(
                old(self)@,
                github_issue_id as int,
                TransitionView::ReleaseTask,
            ) {
                Ok(next) => task is Ok && task->Ok_0@ == next && next.status == TaskStatus::Open
                    && next.unassigned(),
                Err(e) => task == Err::<Task, TaskError>(e),
            },
    {
        self.transition(github_issue_id, Transition::ReleaseTask)
    }

    /// `Assigned → CompleteRequested` for the task of the issue.
    pub fn request_complete(&mut self, github_issue_id: i64) -> (task: Result<Task, TaskError>)
        ensures
            store_wf(final(self)@),
            follows_edges(old(self)@, final(self)@),
            final(self)@ == store_after_transition(
                old(self)@,
                github_issue_id as int,
                TransitionView::RequestComplete,
            ),
            match transition_outcome(
                old(self)@,
                github_issue_id as int,
                TransitionView::RequestComplete,
            ) {
                Ok(next) => task is Ok && task->Ok_0@ == next,
                Err(e) => task == Err::<Task, TaskError>(e),
            },
    {
        self.transition(github_issue_id, Transition::RequestComplete)
    }

    /// `CompleteRequested → Done` for the task of the issue. The award that
    /// goes with it is the caller's part, and comes first.
    pub fn intern_done(&mut self, github_issue_id: i64) -> (task: Result<Task, TaskError>)
        ensures
            store_wf(final(self)@),
            follows_edges(old(self)@, final(self)@),
            final(self)@ == store_after_transition(
                old(self)@,
                github_issue_id as int,
                TransitionView::InternDone,
            ),
            match transition_outcome(
                old(self)@,
                github_issue_id as int,
                TransitionView::InternDone,
            ) {
                Ok(next) => task is Ok && task->Ok_0@ == next,
                Err(e) => task == Err::<Task, TaskError>(e),
            },
    {
        self.transition(github_issue_id, Transition::InternDone)
    }

    /// `Done → Closed` for the task of the issue.
    pub fn intern_close(&mut self, github_issue_id: i64) -> (task: Result<Task, TaskError>)
        ensures
            store_wf(final(self)@),
            follows_edges(old(self)@, final(self)@),
            final(self)@ == store_after_transition(
                old(self)@,
                github_issue_id as int,
                TransitionView::InternClose,
            ),
            match transition_outcome(
                old(self)@,
                github_issue_id as int,
                TransitionView::InternClose,
            ) {
                Ok(next) => task is Ok && task->Ok_0@ == next,
                Err(e) => task == Err::<Task, TaskError>(e),
            },
    {
        self.transition(github_issue_id, Transition::InternClose)
    }
}

} // verus!
