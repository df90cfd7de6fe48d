use pomo::tasks::{can_complete, can_delete, can_reopen, next_position, positions_in_order, TaskStatus};

#[test]
fn task_status_names() {
    assert_eq!(TaskStatus::Pending.as_db_str(), "pending");
    assert_eq!(TaskStatus::Completed.as_db_str(), "completed");
    assert_eq!(TaskStatus::Abandoned.as_db_str(), "abandoned");
}

#[test]
fn finished_tasks_cannot_be_deleted() {
    assert!(!can_delete(&"completed".to_string()));
    assert!(!can_delete(&"abandoned".to_string()));
    assert!(can_delete(&"pending".to_string()));
}

#[test]
fn pending_task_cannot_be_reopened() {
    assert!(!can_reopen(&"pending".to_string()));
    assert!(can_reopen(&"completed".to_string()));
    assert!(can_reopen(&"abandoned".to_string()));
}

#[test]
fn pending_subtasks_block_completion() {
    assert!(can_complete(0));
    assert!(!can_complete(1));
}

#[test]
fn new_task_goes_last() {
    assert_eq!(next_position(-1), Some(0));
    assert_eq!(next_position(4), Some(5));
    assert_eq!(next_position(i64::MAX), None);
}

#[test]
fn reorder_assigns_indices() {
    assert_eq!(positions_in_order(&vec![30, 10, 20]), vec![(0, 30), (1, 10), (2, 20)]);
    assert!(positions_in_order(&vec![]).is_empty());
}
