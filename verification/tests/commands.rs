use chrono::Datelike;
use task_tracker::common::CommonResult;
use task_tracker::errors::TaskError;
use task_tracker::score::ScoreRecord;
use task_tracker::status::TaskStatus;
use task_tracker::task::{NewTask, Task};
use task_tracker::task_router::{
    get_task, intern_approve, intern_close, intern_done, intern_done_at, new_task, release_task,
    request_assign, request_complete, search_with_status, AppState, CommandRequest, SearchTask,
};

fn text(s: &str) -> String {
    s.to_string()
}

fn command(issue: i64) -> CommandRequest {
    CommandRequest { github_issue_id: issue, login: text(""), github_id: 0, student_name: None }
}

fn request(issue: i64, mentor: &str, student_name: &str) -> CommandRequest {
    CommandRequest {
        github_issue_id: issue,
        login: text(mentor),
        github_id: 0,
        student_name: Some(text(student_name)),
    }
}

fn approval(issue: i64, login: &str, github_id: i64) -> CommandRequest {
    CommandRequest { github_issue_id: issue, login: text(login), github_id, student_name: None }
}

fn create(state: &mut AppState, repo: i64, issue: i64, score: i32) -> Task {
    let res =
        new_task(state, NewTask { github_repo_id: repo, github_issue_id: issue, score });
    assert!(res.req_result);
    res.data.unwrap()
}

fn assign(state: &mut AppState, issue: i64, mentor: &str, login: &str, github_id: i64) {
    assert!(request_assign(state, request(issue, mentor, "Student")).req_result);
    assert!(intern_approve(state, approval(issue, login, github_id)).req_result);
}

fn complete_requested(state: &mut AppState, issue: i64, score: i32, login: &str, github_id: i64) {
    create(state, 7, issue, score);
    assign(state, issue, "mentor", login, github_id);
    assert!(request_complete(state, command(issue)).req_result);
}

fn status_of(state: &AppState, issue: i64) -> TaskStatus {
    state.task_stg().find_task_by_issue_id(issue).unwrap().status
}

fn failure<T>(e: TaskError) -> CommonResult<T> {
    CommonResult { req_result: false, data: None, err_message: e.message() }
}

#[test]
fn intern_done_in_march_opens_the_record_and_marks_the_task_done() {
    let mut state = AppState::new();
    create(&mut state, 7, 100, 10);
    assert!(request_assign(&mut state, request(100, "mentor", "Alice")).req_result);
    assert!(intern_approve(&mut state, approval(100, "alice", 42)).req_result);
    assert!(request_complete(&mut state, command(100)).req_result);
    assert_eq!(status_of(&state, 100), TaskStatus::CompleteRequested);

    let res = intern_done_at(&mut state, command(100), 2024, 3);
    assert!(res.req_result);
    assert_eq!(res.err_message, "");
    let task = res.data.unwrap();
    assert_eq!(task.status, TaskStatus::Done);
    assert_eq!(task.student_github_login, Some(text("alice")));
    assert_eq!(status_of(&state, 100), TaskStatus::Done);
    assert_eq!(state.score_stg().len(), 1);
    assert_eq!(
        state.score_stg().find_score(2024, 3, &text("alice")),
        Some(ScoreRecord {
            year: 2024,
            month: 3,
            github_login: text("alice"),
            github_id: 42,
            student_name: text("Alice"),
            new_score: 10,
            carryover_score: 0,
        })
    );
}

#[test]
fn april_record_starts_from_the_march_balance() {
    let mut state = AppState::new();
    complete_requested(&mut state, 100, 10, "alice", 42);
    assert!(intern_done_at(&mut state, command(100), 2024, 3).req_result);
    assert_eq!(state.score_stg().find_score(2024, 4, &text("alice")), None);
    let latest = state.score_stg().find_latest_score(&text("alice")).unwrap();
    assert_eq!((latest.year, latest.month), (2024, 3));
    assert_eq!(latest.score_balance(), 10);

    complete_requested(&mut state, 101, 5, "alice", 42);
    assert!(intern_done_at(&mut state, command(101), 2024, 4).req_result);
    let april = state.score_stg().find_score(2024, 4, &text("alice")).unwrap();
    assert_eq!(april.new_score, 5);
    assert_eq!(april.carryover_score, 10);
}

#[test]
fn request_assign_on_an_assigned_task_is_an_invalid_transition() {
    let mut state = AppState::new();
    create(&mut state, 7, 100, 10);
    assign(&mut state, 100, "mentor", "alice", 42);
    assert_eq!(status_of(&state, 100), TaskStatus::Assigned);
    let before = state.task_stg().find_task_by_issue_id(100).unwrap();
    let res = request_assign(&mut state, request(100, "mentor", "Bob"));
    assert_eq!(
        res,
        failure(TaskError::InvalidTransition {
            attempted: TaskStatus::AssignRequested,
            actual: TaskStatus::Assigned
        })
    );
    assert_eq!(res.err_message, "invalid state: cannot move to AssignRequested from Assigned");
    assert_eq!(state.task_stg().find_task_by_issue_id(100).unwrap(), before);
}

#[test]
fn new_task_answers_with_the_open_task() {
    let mut state = AppState::new();
    let res = new_task(
        &mut state,
        NewTask { github_repo_id: 7, github_issue_id: 100, score: 10 },
    );
    assert!(res.req_result);
    assert_eq!(res.err_message, "");
    let task = res.data.unwrap();
    assert_eq!(task.id, 1);
    assert_eq!(task.github_repo_id, 7);
    assert_eq!(task.github_issue_id, 100);
    assert_eq!(task.score, 10);
    assert_eq!(task.status, TaskStatus::Open);
    assert_eq!(task.student_name, None);
    assert_eq!(state.task_stg().len(), 1);
    assert_eq!(state.score_stg().len(), 0);
}

#[test]
fn new_task_for_a_known_issue_is_a_storage_error() {
    let mut state = AppState::new();
    create(&mut state, 7, 100, 10);
    let res = new_task(
        &mut state,
        NewTask { github_repo_id: 7, github_issue_id: 100, score: 11 },
    );
    assert_eq!(res, failure(TaskError::StorageError));
    assert_eq!(res.err_message, "storage error");
    assert_eq!(state.task_stg().len(), 1);
    assert_eq!(state.task_stg().find_task_by_issue_id(100).unwrap().score, 10);
}

#[test]
fn get_task_tells_found_from_not_found() {
    let mut state = AppState::new();
    let created = create(&mut state, 7, 100, 10);
    let found = get_task(&state, 100);
    assert!(found.req_result);
    assert_eq!(found.data, Some(created));
    let missing = get_task(&state, 101);
    assert_eq!(missing, failure(TaskError::NotFound));
    assert_eq!(missing.err_message, "Task Not Found");
}

#[test]
fn every_command_on_a_missing_issue_is_not_found() {
    let mut state = AppState::new();
    create(&mut state, 7, 100, 10);
    assert_eq!(request_assign(&mut state, request(5, "m", "s")), failure(TaskError::NotFound));
    assert_eq!(intern_approve(&mut state, approval(5, "a", 1)), failure(TaskError::NotFound));
    assert_eq!(release_task(&mut state, command(5)), failure(TaskError::NotFound));
    assert_eq!(request_complete(&mut state, command(5)), failure(TaskError::NotFound));
    assert_eq!(intern_done_at(&mut state, command(5), 2024, 3), failure(TaskError::NotFound));
    assert_eq!(intern_close(&mut state, command(5)), failure(TaskError::NotFound));
    assert_eq!(status_of(&state, 100), TaskStatus::Open);
    assert_eq!(state.score_stg().len(), 0);
}

#[test]
fn commands_answer_true_and_move_the_task() {
    let mut state = AppState::new();
    create(&mut state, 7, 100, 10);
    let requested = request_assign(&mut state, request(100, "mentor", "Alice"));
    assert_eq!(
        requested,
        CommonResult { req_result: true, data: Some(true), err_message: text("") }
    );
    assert_eq!(status_of(&state, 100), TaskStatus::AssignRequested);
    assert_eq!(intern_approve(&mut state, approval(100, "alice", 42)).data, Some(true));
    assert_eq!(status_of(&state, 100), TaskStatus::Assigned);
    assert_eq!(request_complete(&mut state, command(100)).data, Some(true));
    assert_eq!(status_of(&state, 100), TaskStatus::CompleteRequested);
    assert!(intern_done_at(&mut state, command(100), 2024, 3).req_result);
    assert_eq!(status_of(&state, 100), TaskStatus::Done);
    assert_eq!(intern_close(&mut state, command(100)).data, Some(true));
    assert_eq!(status_of(&state, 100), TaskStatus::Closed);
}

#[test]
fn closed_is_terminal_for_every_command() {
    let mut state = AppState::new();
    complete_requested(&mut state, 100, 10, "alice", 42);
    assert!(intern_done_at(&mut state, command(100), 2024, 3).req_result);
    assert!(intern_close(&mut state, command(100)).req_result);
    let invalid = |attempted| {
        TaskError::InvalidTransition { attempted, actual: TaskStatus::Closed }
    };
    assert_eq!(
        request_assign(&mut state, request(100, "m", "s")),
        failure(invalid(TaskStatus::AssignRequested))
    );
    assert_eq!(
        intern_approve(&mut state, approval(100, "a", 1)),
        failure(invalid(TaskStatus::Assigned))
    );
    assert_eq!(release_task(&mut state, command(100)), failure(invalid(TaskStatus::Open)));
    assert_eq!(
        request_complete(&mut state, command(100)),
        failure(invalid(TaskStatus::CompleteRequested))
    );
    assert_eq!(
        intern_done_at(&mut state, command(100), 2024, 3),
        failure(invalid(TaskStatus::Done))
    );
    assert_eq!(intern_close(&mut state, command(100)), failure(invalid(TaskStatus::Closed)));
    assert_eq!(status_of(&state, 100), TaskStatus::Closed);
    assert_eq!(state.score_stg().find_score(2024, 3, &text("alice")).unwrap().new_score, 10);
}

#[test]
fn release_command_clears_the_student_and_keeps_the_task() {
    let mut state = AppState::new();
    create(&mut state, 7, 100, 10);
    assign(&mut state, 100, "mentor", "alice", 42);
    assert_eq!(release_task(&mut state, command(100)).data, Some(true));
    let task = state.task_stg().find_task_by_issue_id(100).unwrap();
    assert_eq!(task.status, TaskStatus::Open);
    assert_eq!(task.student_github_login, None);
    assert_eq!(task.student_name, None);
    assert_eq!(task.student_github_id, None);
    assert_eq!(task.score, 10);
    assert_eq!(state.task_stg().len(), 1);
}

#[test]
fn release_of_a_task_waiting_for_confirmation_is_invalid() {
    let mut state = AppState::new();
    complete_requested(&mut state, 100, 10, "alice", 42);
    assert_eq!(
        release_task(&mut state, command(100)),
        failure(TaskError::InvalidTransition {
            attempted: TaskStatus::Open,
            actual: TaskStatus::CompleteRequested
        })
    );
    assert_eq!(status_of(&state, 100), TaskStatus::CompleteRequested);
}

#[test]
fn intern_done_before_completion_is_requested_scores_nothing() {
    let mut state = AppState::new();
    create(&mut state, 7, 100, 10);
    assign(&mut state, 100, "mentor", "alice", 42);
    assert_eq!(
        intern_done_at(&mut state, command(100), 2024, 3),
        failure(TaskError::InvalidTransition {
            attempted: TaskStatus::Done,
            actual: TaskStatus::Assigned
        })
    );
    assert_eq!(status_of(&state, 100), TaskStatus::Assigned);
    assert_eq!(state.score_stg().len(), 0);
}

#[test]
fn intern_done_twice_scores_once() {
    let mut state = AppState::new();
    complete_requested(&mut state, 100, 10, "alice", 42);
    assert!(intern_done_at(&mut state, command(100), 2024, 3).req_result);
    assert_eq!(
        intern_done_at(&mut state, command(100), 2024, 3),
        failure(TaskError::InvalidTransition {
            attempted: TaskStatus::Done,
            actual: TaskStatus::Done
        })
    );
    assert_eq!(state.score_stg().find_score(2024, 3, &text("alice")).unwrap().new_score, 10);
}

#[test]
fn two_tasks_done_in_one_period_are_both_counted() {
    let mut state = AppState::new();
    complete_requested(&mut state, 100, 10, "alice", 42);
    complete_requested(&mut state, 101, 7, "alice", 42);
    assert!(intern_done_at(&mut state, command(100), 2024, 3).req_result);
    assert!(intern_done_at(&mut state, command(101), 2024, 3).req_result);
    assert_eq!(state.score_stg().len(), 1);
    let record = state.score_stg().find_score(2024, 3, &text("alice")).unwrap();
    assert_eq!(record.new_score, 17);
    assert_eq!(record.carryover_score, 0);
    assert_eq!(status_of(&state, 100), TaskStatus::Done);
    assert_eq!(status_of(&state, 101), TaskStatus::Done);
}

#[test]
fn failed_award_leaves_the_task_complete_requested() {
    let mut state = AppState::new();
    complete_requested(&mut state, 100, i32::MAX, "alice", 42);
    complete_requested(&mut state, 101, 1, "alice", 42);
    assert!(intern_done_at(&mut state, command(100), 2024, 3).req_result);
    let res = intern_done_at(&mut state, command(101), 2024, 3);
    assert_eq!(res, failure(TaskError::StorageError));
    assert_eq!(status_of(&state, 101), TaskStatus::CompleteRequested);
    assert_eq!(state.score_stg().len(), 1);
    assert_eq!(state.score_stg().find_score(2024, 3, &text("alice")).unwrap().new_score, i32::MAX);
}

#[test]
fn intern_done_can_be_given_again_after_a_failed_award() {
    let mut state = AppState::new();
    complete_requested(&mut state, 100, i32::MAX, "alice", 42);
    complete_requested(&mut state, 101, -1, "alice", 42);
    complete_requested(&mut state, 102, 1, "alice", 42);
    assert!(intern_done_at(&mut state, command(100), 2024, 3).req_result);
    assert!(!intern_done_at(&mut state, command(102), 2024, 3).req_result);
    assert!(intern_done_at(&mut state, command(101), 2024, 3).req_result);
    assert!(intern_done_at(&mut state, command(102), 2024, 3).req_result);
    assert_eq!(status_of(&state, 102), TaskStatus::Done);
    assert_eq!(state.score_stg().find_score(2024, 3, &text("alice")).unwrap().new_score, i32::MAX);
}

#[test]
fn intern_done_dates_the_award_at_the_current_instant() {
    let mut state = AppState::new();
    complete_requested(&mut state, 100, 10, "alice", 42);
    let before = chrono::Utc::now();
    let res = intern_done(&mut state, command(100));
    let after = chrono::Utc::now();
    assert!(res.req_result);
    assert_eq!(res.data.unwrap().status, TaskStatus::Done);
    assert_eq!(state.score_stg().len(), 1);
    let record = state.score_stg().find_latest_score(&text("alice")).unwrap();
    assert_eq!(record.new_score, 10);
    assert!(1 <= record.month && record.month <= 12);
    let at_start = (before.year(), before.month() as i32);
    let at_end = (after.year(), after.month() as i32);
    assert!((record.year, record.month) == at_start || (record.year, record.month) == at_end);
}

#[test]
fn search_finds_the_tasks_being_worked_on() {
    let mut state = AppState::new();
    for issue in 100..106 {
        create(&mut state, 7, issue, 1);
    }
    // 100 stays open; 101 requested; 102 assigned; 103 waits for confirmation;
    // 104 done; 105 closed.
    assert!(request_assign(&mut state, request(101, "mentor", "B")).req_result);
    assign(&mut state, 102, "mentor", "c", 3);
    assign(&mut state, 103, "mentor", "d", 4);
    assert!(request_complete(&mut state, command(103)).req_result);
    assign(&mut state, 104, "mentor", "e", 5);
    assert!(request_complete(&mut state, command(104)).req_result);
    assert!(intern_done_at(&mut state, command(104), 2024, 3).req_result);
    assign(&mut state, 105, "mentor", "f", 6);
    assert!(request_complete(&mut state, command(105)).req_result);
    assert!(intern_done_at(&mut state, command(105), 2024, 3).req_result);
    assert!(intern_close(&mut state, command(105)).req_result);

    let res = search_with_status(
        &state,
        SearchTask { github_repo_id: 7, github_mentor_login: text("mentor") },
    );
    assert!(res.req_result);
    let found = res.data.unwrap();
    assert_eq!(
        found.iter().map(|t| (t.github_issue_id, t.status)).collect::<Vec<(i64, TaskStatus)>>(),
        vec![
            (101, TaskStatus::AssignRequested),
            (102, TaskStatus::Assigned),
            (103, TaskStatus::CompleteRequested)
        ]
    );
}

#[test]
fn search_keeps_to_the_repository_and_the_mentor() {
    let mut state = AppState::new();
    create(&mut state, 7, 100, 1);
    create(&mut state, 8, 101, 1);
    create(&mut state, 7, 102, 1);
    assert!(request_assign(&mut state, request(100, "mentor", "A")).req_result);
    assert!(request_assign(&mut state, request(101, "mentor", "B")).req_result);
    assert!(request_assign(&mut state, request(102, "other", "C")).req_result);
    let of = |repo: i64, mentor: &str| {
        search_with_status(
            &state,
            SearchTask { github_repo_id: repo, github_mentor_login: text(mentor) },
        )
        .data
        .unwrap()
        .iter()
        .map(|t| t.github_issue_id)
        .collect::<Vec<i64>>()
    };
    assert_eq!(of(7, "mentor"), vec![100]);
    assert_eq!(of(8, "mentor"), vec![101]);
    assert_eq!(of(7, "other"), vec![102]);
    assert_eq!(of(9, "mentor"), Vec::<i64>::new());
    assert_eq!(of(7, "nobody"), Vec::<i64>::new());
}

#[test]
fn search_leaves_released_tasks_out() {
    let mut state = AppState::new();
    create(&mut state, 7, 100, 1);
    assign(&mut state, 100, "mentor", "alice", 42);
    assert!(release_task(&mut state, command(100)).req_result);
    let res = search_with_status(
        &state,
        SearchTask { github_repo_id: 7, github_mentor_login: text("mentor") },
    );
    assert_eq!(res.data, Some(vec![]));
}

#[test]
fn answers_are_success_or_failure() {
    let ok: CommonResult<i32> = CommonResult::success(Some(5));
    assert_eq!(ok, CommonResult { req_result: true, data: Some(5), err_message: text("") });
    let empty: CommonResult<i32> = CommonResult::success(None);
    assert_eq!(empty, CommonResult { req_result: true, data: None, err_message: text("") });
    let failed: CommonResult<i32> = CommonResult::failed("Task Not Found");
    assert_eq!(
        failed,
        CommonResult { req_result: false, data: None, err_message: text("Task Not Found") }
    );
    let from_error: CommonResult<i32> = CommonResult::from_error(TaskError::StorageError);
    assert_eq!(
        from_error,
        CommonResult { req_result: false, data: None, err_message: text("storage error") }
    );
}

fn earned(state: &AppState, login: &str) -> i64 {
    state
        .score_stg()
        .records()
        .iter()
        .filter(|r| r.github_login == login)
        .map(|r| r.new_score as i64)
        .sum()
}

fn finished(state: &AppState, login: &str) -> i64 {
    state
        .task_stg()
        .tasks()
        .iter()
        .filter(|t| t.status == TaskStatus::Done || t.status == TaskStatus::Closed)
        .filter(|t| t.student_github_login.as_deref() == Some(login))
        .map(|t| t.score as i64)
        .sum()
}

#[test]
fn ledger_credits_what_the_finished_tasks_are_worth() {
    let mut state = AppState::new();
    let check = |state: &AppState| {
        for login in ["alice", "bob", "carol"] {
            assert_eq!(earned(state, login), finished(state, login), "{}", login);
        }
    };
    check(&state);
    complete_requested(&mut state, 100, 10, "alice", 42);
    complete_requested(&mut state, 101, 7, "alice", 42);
    complete_requested(&mut state, 102, 3, "bob", 43);
    complete_requested(&mut state, 103, i32::MAX, "bob", 43);
    create(&mut state, 7, 104, 50);
    assign(&mut state, 104, "mentor", "carol", 44);
    check(&state);
    assert!(intern_done_at(&mut state, command(100), 2024, 3).req_result);
    check(&state);
    assert!(intern_done_at(&mut state, command(101), 2024, 4).req_result);
    check(&state);
    assert!(intern_done_at(&mut state, command(102), 2024, 4).req_result);
    check(&state);
    assert!(!intern_done_at(&mut state, command(103), 2024, 4).req_result);
    check(&state);
    assert!(intern_close(&mut state, command(100)).req_result);
    check(&state);
    assert!(release_task(&mut state, command(104)).req_result);
    check(&state);
    assert!(!intern_done_at(&mut state, command(100), 2024, 5).req_result);
    check(&state);
    assert_eq!(earned(&state, "alice"), 17);
    assert_eq!(earned(&state, "bob"), 3);
    assert_eq!(earned(&state, "carol"), 0);
}

#[test]
fn state_lists_tasks_and_records_in_order() {
    let mut state = AppState::new();
    assert!(state.task_stg().tasks().is_empty());
    assert!(state.score_stg().records().is_empty());
    complete_requested(&mut state, 100, 10, "alice", 42);
    complete_requested(&mut state, 101, 7, "bob", 43);
    assert!(intern_done_at(&mut state, command(101), 2024, 3).req_result);
    assert!(intern_done_at(&mut state, command(100), 2024, 3).req_result);
    let tasks = state.task_stg().tasks();
    assert_eq!(tasks.iter().map(|t| (t.id, t.github_issue_id)).collect::<Vec<_>>(), vec![
        (1, 100),
        (2, 101)
    ]);
    let records = state.score_stg().records();
    assert_eq!(
        records.iter().map(|r| (r.github_login.as_str(), r.new_score)).collect::<Vec<_>>(),
        vec![("bob", 7), ("alice", 10)]
    );
}

#[test]
fn second_approval_of_one_request_is_rejected() {
    let mut state = AppState::new();
    create(&mut state, 7, 100, 10);
    assert!(request_assign(&mut state, request(100, "mentor", "Alice")).req_result);
    assert!(intern_approve(&mut state, approval(100, "alice", 42)).req_result);
    let second = intern_approve(&mut state, approval(100, "mallory", 66));
    assert_eq!(
        second,
        failure(TaskError::InvalidTransition {
            attempted: TaskStatus::Assigned,
            actual: TaskStatus::Assigned
        })
    );
    let task = state.task_stg().find_task_by_issue_id(100).unwrap();
    assert_eq!(task.student_github_login, Some(text("alice")));
    assert_eq!(task.student_github_id, Some(42));
}
