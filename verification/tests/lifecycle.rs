use task_tracker::errors::TaskError;
use task_tracker::status::{Operation, TaskStatus};
use task_tracker::task::{NewTask, Task, Transition};
use task_tracker::task_stg::TaskStorage;

const ALL_STATUSES: [TaskStatus; 6] = [
    TaskStatus::Open,
    TaskStatus::AssignRequested,
    TaskStatus::Assigned,
    TaskStatus::CompleteRequested,
    TaskStatus::Done,
    TaskStatus::Closed,
];

const ALL_OPERATIONS: [Operation; 6] = [
    Operation::RequestAssign,
    Operation::InternApprove,
    Operation::ReleaseTask,
    Operation::RequestComplete,
    Operation::InternDone,
    Operation::InternClose,
];

fn text(s: &str) -> String {
    s.to_string()
}

fn task_in(status: TaskStatus) -> Task {
    let mut task = Task::new(1, NewTask { github_repo_id: 7, github_issue_id: 100, score: 10 });
    match status {
        TaskStatus::Open => {}
        TaskStatus::AssignRequested => {
            task.mentor_login = Some(text("mentor"));
            task.student_name = Some(text("Alice"));
        }
        _ => {
            task.mentor_login = Some(text("mentor"));
            task.student_name = Some(text("Alice"));
            task.student_github_login = Some(text("alice"));
            task.student_github_id = Some(42);
        }
    }
    task.status = status;
    task
}

fn ask(mentor: &str, student_name: &str) -> Transition {
    Transition::RequestAssign { mentor_login: text(mentor), student_name: text(student_name) }
}

fn approve(login: &str, github_id: i64) -> Transition {
    Transition::InternApprove { student_github_login: text(login), student_github_id: github_id }
}

fn transition_for(op: Operation) -> Transition {
    match op {
        Operation::RequestAssign => {
            Transition::RequestAssign { mentor_login: text("mentor"), student_name: text("Alice") }
        }
        Operation::InternApprove => {
            Transition::InternApprove { student_github_login: text("alice"), student_github_id: 42 }
        }
        Operation::ReleaseTask => Transition::ReleaseTask,
        Operation::RequestComplete => Transition::RequestComplete,
        Operation::InternDone => Transition::InternDone,
        Operation::InternClose => Transition::InternClose,
    }
}

fn expected_target(op: Operation, from: TaskStatus) -> Option<TaskStatus> {
    match (op, from) {
        (Operation::RequestAssign, TaskStatus::Open) => Some(TaskStatus::AssignRequested),
        (Operation::InternApprove, TaskStatus::AssignRequested) => Some(TaskStatus::Assigned),
        (Operation::ReleaseTask, TaskStatus::AssignRequested) => Some(TaskStatus::Open),
        (Operation::ReleaseTask, TaskStatus::Assigned) => Some(TaskStatus::Open),
        (Operation::RequestComplete, TaskStatus::Assigned) => Some(TaskStatus::CompleteRequested),
        (Operation::InternDone, TaskStatus::CompleteRequested) => Some(TaskStatus::Done),
        (Operation::InternClose, TaskStatus::Done) => Some(TaskStatus::Closed),
        _ => None,
    }
}

#[test]
fn new_task_is_open_and_unassigned() {
    let task = Task::new(3, NewTask { github_repo_id: 7, github_issue_id: 100, score: 25 });
    assert_eq!(task.id, 3);
    assert_eq!(task.github_repo_id, 7);
    assert_eq!(task.github_issue_id, 100);
    assert_eq!(task.score, 25);
    assert_eq!(task.status, TaskStatus::Open);
    assert_eq!(task.mentor_login, None);
    assert_eq!(task.student_github_login, None);
    assert_eq!(task.student_name, None);
    assert_eq!(task.student_github_id, None);
    assert!(task.is_well_formed());
}

#[test]
fn every_operation_from_every_status_follows_the_table() {
    for from in ALL_STATUSES {
        for op in ALL_OPERATIONS {
            let mut task = task_in(from);
            let before = task.clone();
            let done = task.apply(transition_for(op));
            match expected_target(op, from) {
                Some(to) => {
                    assert_eq!(done, Ok(()), "{:?} from {:?}", op, from);
                    assert_eq!(task.status, to);
                    assert!(task.is_well_formed());
                    assert_eq!(task.id, before.id);
                    assert_eq!(task.github_issue_id, before.github_issue_id);
                    assert_eq!(task.score, before.score);
                }
                None => {
                    assert_eq!(
                        done,
                        Err(TaskError::InvalidTransition { attempted: op.target(), actual: from }),
                        "{:?} from {:?}",
                        op,
                        from
                    );
                    assert_eq!(task, before);
                }
            }
        }
    }
}

#[test]
fn accepts_agrees_with_the_table() {
    for from in ALL_STATUSES {
        for op in ALL_OPERATIONS {
            assert_eq!(op.accepts(from), expected_target(op, from).is_some());
            if let Some(to) = expected_target(op, from) {
                assert_eq!(op.target(), to);
            }
        }
    }
}

#[test]
fn closed_is_the_only_terminal_status() {
    for status in ALL_STATUSES {
        assert_eq!(status.is_terminal(), status == TaskStatus::Closed);
        let leaves = ALL_OPERATIONS.iter().any(|op| op.accepts(status));
        assert_eq!(leaves, status != TaskStatus::Closed);
    }
}

#[test]
fn processing_set_is_requested_assigned_and_complete_requested() {
    assert_eq!(
        TaskStatus::processing_task_status(),
        vec![TaskStatus::AssignRequested, TaskStatus::Assigned, TaskStatus::CompleteRequested]
    );
    assert!(!TaskStatus::Open.is_processing());
    assert!(TaskStatus::AssignRequested.is_processing());
    assert!(TaskStatus::Assigned.is_processing());
    assert!(TaskStatus::CompleteRequested.is_processing());
    assert!(!TaskStatus::Done.is_processing());
    assert!(!TaskStatus::Closed.is_processing());
}

#[test]
fn status_names() {
    assert_eq!(TaskStatus::Open.name(), "Open");
    assert_eq!(TaskStatus::AssignRequested.name(), "AssignRequested");
    assert_eq!(TaskStatus::Assigned.name(), "Assigned");
    assert_eq!(TaskStatus::CompleteRequested.name(), "CompleteRequested");
    assert_eq!(TaskStatus::Done.name(), "Done");
    assert_eq!(TaskStatus::Closed.name(), "Closed");
}

#[test]
fn request_assign_records_mentor_and_student_name() {
    let mut task = task_in(TaskStatus::Open);
    assert_eq!(task.apply(ask("mentor", "Alice")), Ok(()));
    assert_eq!(task.status, TaskStatus::AssignRequested);
    assert_eq!(task.mentor_login, Some(text("mentor")));
    assert_eq!(task.student_name, Some(text("Alice")));
    assert_eq!(task.student_github_login, None);
    assert_eq!(task.student_github_id, None);
}

#[test]
fn intern_approve_completes_the_student_identity() {
    let mut task = task_in(TaskStatus::AssignRequested);
    assert_eq!(task.apply(approve("alice", 42)), Ok(()));
    assert_eq!(task.status, TaskStatus::Assigned);
    assert_eq!(task.mentor_login, Some(text("mentor")));
    assert_eq!(task.student_github_login, Some(text("alice")));
    assert_eq!(task.student_name, Some(text("Alice")));
    assert_eq!(task.student_github_id, Some(42));
}

#[test]
fn release_from_assign_requested_clears_student_fields() {
    let mut task = task_in(TaskStatus::AssignRequested);
    assert_eq!(task.apply(Transition::ReleaseTask), Ok(()));
    assert_eq!(task.status, TaskStatus::Open);
    assert_eq!(task.student_github_login, None);
    assert_eq!(task.student_name, None);
    assert_eq!(task.student_github_id, None);
}

#[test]
fn release_from_assigned_clears_student_fields() {
    let mut task = task_in(TaskStatus::Assigned);
    assert_eq!(task.apply(Transition::ReleaseTask), Ok(()));
    assert_eq!(task.status, TaskStatus::Open);
    assert_eq!(task.student_github_login, None);
    assert_eq!(task.student_name, None);
    assert_eq!(task.student_github_id, None);
    assert!(task.is_well_formed());
}

#[test]
fn release_of_an_open_task_is_rejected_and_changes_nothing() {
    let mut task = task_in(TaskStatus::Open);
    let before = task.clone();
    assert_eq!(
        task.apply(Transition::ReleaseTask),
        Err(TaskError::InvalidTransition {
            attempted: TaskStatus::Open,
            actual: TaskStatus::Open
        })
    );
    assert_eq!(task, before);
}

#[test]
fn a_released_task_can_be_requested_again() {
    let mut task = task_in(TaskStatus::Assigned);
    assert_eq!(task.apply(Transition::ReleaseTask), Ok(()));
    assert_eq!(task.apply(ask("other-mentor", "Bob")), Ok(()));
    assert_eq!(task.mentor_login, Some(text("other-mentor")));
    assert_eq!(task.student_name, Some(text("Bob")));
    assert_eq!(task.student_github_login, None);
}

#[test]
fn the_forward_path_runs_from_open_to_closed() {
    let mut task = task_in(TaskStatus::Open);
    assert_eq!(task.apply(ask("mentor", "Alice")), Ok(()));
    assert_eq!(task.apply(approve("alice", 42)), Ok(()));
    assert_eq!(task.apply(Transition::RequestComplete), Ok(()));
    assert_eq!(task.status, TaskStatus::CompleteRequested);
    assert_eq!(task.apply(Transition::InternDone), Ok(()));
    assert_eq!(task.status, TaskStatus::Done);
    assert_eq!(task.apply(Transition::InternClose), Ok(()));
    assert_eq!(task.status, TaskStatus::Closed);
    assert_eq!(
        task.apply(Transition::InternClose),
        Err(TaskError::InvalidTransition {
            attempted: TaskStatus::Closed,
            actual: TaskStatus::Closed
        })
    );
}

#[test]
fn well_formedness_ties_student_fields_to_status() {
    for status in ALL_STATUSES {
        assert!(task_in(status).is_well_formed());
    }
    let mut named_while_open = task_in(TaskStatus::Open);
    named_while_open.student_name = Some(text("Alice"));
    assert!(!named_while_open.is_well_formed());
    let mut half_assigned = task_in(TaskStatus::Assigned);
    half_assigned.student_github_id = None;
    assert!(!half_assigned.is_well_formed());
    let mut early_login = task_in(TaskStatus::AssignRequested);
    early_login.student_github_login = Some(text("alice"));
    assert!(!early_login.is_well_formed());
}

#[test]
fn error_messages_tell_the_kinds_apart() {
    assert_eq!(TaskError::NotFound.message(), "Task Not Found");
    assert_eq!(TaskError::StorageError.message(), "storage error");
    assert_eq!(
        TaskError::InvalidTransition {
            attempted: TaskStatus::AssignRequested,
            actual: TaskStatus::Assigned
        }
        .message(),
        "invalid state: cannot move to AssignRequested from Assigned"
    );
    assert!(TaskError::NotFound.is_not_found());
    assert!(!TaskError::NotFound.is_invalid_transition());
    let invalid =
        TaskError::InvalidTransition { attempted: TaskStatus::Done, actual: TaskStatus::Open };
    assert!(invalid.is_invalid_transition());
    assert!(!invalid.is_not_found());
    assert!(!TaskError::StorageError.is_not_found());
    assert!(!TaskError::StorageError.is_invalid_transition());
}

#[test]
fn repository_counts_ids_from_one() {
    let mut store = TaskStorage::new();
    assert_eq!(store.len(), 0);
    let first = store
        .create_task(NewTask { github_repo_id: 7, github_issue_id: 100, score: 10 })
        .unwrap();
    let second = store
        .create_task(NewTask { github_repo_id: 7, github_issue_id: 101, score: 20 })
        .unwrap();
    assert_eq!(first.id, 1);
    assert_eq!(second.id, 2);
    assert_eq!(second.score, 20);
    assert_eq!(second.status, TaskStatus::Open);
    assert_eq!(store.len(), 2);
}

#[test]
fn repository_rejects_a_second_task_of_one_issue() {
    let mut store = TaskStorage::new();
    store.create_task(NewTask { github_repo_id: 7, github_issue_id: 100, score: 10 }).unwrap();
    let again = store.create_task(NewTask { github_repo_id: 8, github_issue_id: 100, score: 99 });
    assert_eq!(again, Err(TaskError::StorageError));
    assert_eq!(store.len(), 1);
    let kept = store.find_task_by_issue_id(100).unwrap();
    assert_eq!(kept.github_repo_id, 7);
    assert_eq!(kept.score, 10);
}

#[test]
fn repository_lookup_miss_is_not_found() {
    let mut store = TaskStorage::new();
    store.create_task(NewTask { github_repo_id: 7, github_issue_id: 100, score: 10 }).unwrap();
    assert_eq!(store.find_task_by_issue_id(101), Err(TaskError::NotFound));
    assert_eq!(store.release_task(101), Err(TaskError::NotFound));
    assert_eq!(store.transition(101, Transition::InternClose), Err(TaskError::NotFound));
}

#[test]
fn repository_transition_touches_only_the_task_of_the_issue() {
    let mut store = TaskStorage::new();
    store.create_task(NewTask { github_repo_id: 7, github_issue_id: 100, score: 10 }).unwrap();
    store.create_task(NewTask { github_repo_id: 7, github_issue_id: 101, score: 20 }).unwrap();
    let other_before = store.find_task_by_issue_id(101).unwrap();
    let moved = store.request_assign(100, text("mentor"), text("Alice")).unwrap();
    assert_eq!(moved.status, TaskStatus::AssignRequested);
    assert_eq!(store.find_task_by_issue_id(100).unwrap(), moved);
    assert_eq!(store.find_task_by_issue_id(101).unwrap(), other_before);
    assert_eq!(store.len(), 2);
}

#[test]
fn repository_failed_transition_changes_nothing() {
    let mut store = TaskStorage::new();
    store.create_task(NewTask { github_repo_id: 7, github_issue_id: 100, score: 10 }).unwrap();
    let before = store.find_task_by_issue_id(100).unwrap();
    assert_eq!(
        store.intern_done(100),
        Err(TaskError::InvalidTransition {
            attempted: TaskStatus::Done,
            actual: TaskStatus::Open
        })
    );
    assert_eq!(
        store.intern_approve(100, text("alice"), 42),
        Err(TaskError::InvalidTransition {
            attempted: TaskStatus::Assigned,
            actual: TaskStatus::Open
        })
    );
    assert_eq!(store.find_task_by_issue_id(100).unwrap(), before);
}

#[test]
fn repository_runs_the_whole_lifecycle() {
    let mut store = TaskStorage::new();
    store.create_task(NewTask { github_repo_id: 7, github_issue_id: 100, score: 10 }).unwrap();
    assert_eq!(
        store.request_assign(100, text("mentor"), text("Alice")).unwrap().status,
        TaskStatus::AssignRequested
    );
    assert_eq!(store.intern_approve(100, text("alice"), 42).unwrap().status, TaskStatus::Assigned);
    assert_eq!(store.release_task(100).unwrap().status, TaskStatus::Open);
    assert_eq!(
        store.request_assign(100, text("mentor"), text("Alice")).unwrap().status,
        TaskStatus::AssignRequested
    );
    assert_eq!(store.intern_approve(100, text("alice"), 42).unwrap().status, TaskStatus::Assigned);
    assert_eq!(store.request_complete(100).unwrap().status, TaskStatus::CompleteRequested);
    assert_eq!(store.intern_done(100).unwrap().status, TaskStatus::Done);
    let closed = store.intern_close(100).unwrap();
    assert_eq!(closed.status, TaskStatus::Closed);
    assert_eq!(closed.student_github_login, Some(text("alice")));
    assert_eq!(store.len(), 1);
}

#[test]
fn repository_search_filters_by_repo_mentor_and_status() {
    let mut store = TaskStorage::new();
    for (repo, issue) in [(7, 100), (7, 101), (8, 102), (7, 103), (7, 104)] {
        store
            .create_task(NewTask { github_repo_id: repo, github_issue_id: issue, score: 1 })
            .unwrap();
    }
    store.request_assign(100, text("mentor"), text("Alice")).unwrap();
    store.request_assign(101, text("other"), text("Bob")).unwrap();
    store.request_assign(102, text("mentor"), text("Carol")).unwrap();
    store.request_assign(103, text("mentor"), text("Dave")).unwrap();
    store.intern_approve(103, text("dave"), 4).unwrap();
    let mentor = text("mentor");
    let requested = store.find_tasks_by_status(7, &mentor, &vec![TaskStatus::AssignRequested]);
    assert_eq!(requested.iter().map(|t| t.github_issue_id).collect::<Vec<i64>>(), vec![100]);
    let both = store.find_tasks_by_status(
        7,
        &mentor,
        &vec![TaskStatus::Assigned, TaskStatus::AssignRequested],
    );
    assert_eq!(both.iter().map(|t| t.github_issue_id).collect::<Vec<i64>>(), vec![100, 103]);
    let none = store.find_tasks_by_status(7, &mentor, &vec![]);
    assert!(none.is_empty());
    let open = store.find_tasks_by_status(7, &mentor, &vec![TaskStatus::Open]);
    assert!(open.is_empty());
}
