use bodhi_migration::strategy::{FullMigrationStrategy, MigrationStrategyEnum};
use bodhi_migration::task::{MigrationTask, TaskProgress, TaskStatus};

fn fresh_task(now: u64) -> MigrationTask {
    MigrationTask::new(
        "copy".to_string(),
        "copy everything".to_string(),
        "src-conn".to_string(),
        "dst-conn".to_string(),
        MigrationStrategyEnum::Full(FullMigrationStrategy::new()),
        now,
    )
}

#[test]
fn new_task_starts_created() {
    let t = fresh_task(1_000);
    assert_eq!(t.status, TaskStatus::Created);
    assert_eq!(t.id.len(), 36);
    assert_eq!(t.name, "copy");
    assert_eq!(t.created_at, 1_000);
    assert_eq!(t.updated_at, 1_000);
    assert!(t.error.is_none());
    assert!(t.started_at.is_none());
    assert!(t.completed_at.is_none());
    assert_eq!(t.progress.completed_items, 0);
    assert_eq!(t.progress.current_operation, "Initializing");
}

#[test]
fn start_sets_started_at_once() {
    let mut t = fresh_task(1_000);
    assert!(t.start(2_000).is_ok());
    assert_eq!(t.status, TaskStatus::Running);
    assert_eq!(t.started_at, Some(2_000));
    assert_eq!(t.updated_at, 2_000);
    assert_eq!(t.progress.current_operation, "Starting migration");

    assert!(t.pause(3_000).is_ok());
    assert_eq!(t.status, TaskStatus::Paused);
    assert_eq!(t.progress.current_operation, "Migration paused");

    // A second start within the same run cycle keeps the first instant.
    assert!(t.start(4_000).is_ok());
    assert_eq!(t.started_at, Some(2_000));
    assert_eq!(t.updated_at, 4_000);
}

#[test]
fn complete_only_from_running() {
    let mut t = fresh_task(0);
    let err = t.complete(10).unwrap_err();
    assert_eq!(err.message(), "Cannot complete task in Created status");
    assert_eq!(t.status, TaskStatus::Created);

    assert!(t.start(20).is_ok());
    assert!(t.complete(30).is_ok());
    assert_eq!(t.status, TaskStatus::Completed);
    assert_eq!(t.completed_at, Some(30));
    assert_eq!(t.progress.current_operation, "Migration completed");
}

#[test]
fn fail_records_error_and_is_restartable() {
    let mut t = fresh_task(0);
    assert!(t.start(1).is_ok());
    assert!(t.fail("target went away".to_string(), 2).is_ok());
    assert_eq!(t.status, TaskStatus::Failed);
    assert_eq!(t.error.as_deref(), Some("target went away"));
    assert_eq!(t.progress.current_operation, "Migration failed");

    // Failed is not terminal: start is allowed again.
    assert!(t.start(3).is_ok());
    assert_eq!(t.status, TaskStatus::Running);
}

#[test]
fn disallowed_operations_leave_task_unchanged() {
    // Pause from every state but Running is rejected without any change.
    let mut t = fresh_task(0);
    let before_status = t.status;
    let before_updated = t.updated_at;
    let err = t.pause(99).unwrap_err();
    assert_eq!(err.message(), "Cannot pause task in Created status");
    assert_eq!(t.status, before_status);
    assert_eq!(t.updated_at, before_updated);

    // Cancel from a terminal state is rejected without any change.
    assert!(t.start(1).is_ok());
    assert!(t.complete(2).is_ok());
    let err = t.cancel(3).unwrap_err();
    assert_eq!(err.message(), "Cannot cancel task in Completed status");
    assert_eq!(t.status, TaskStatus::Completed);
    assert_eq!(t.updated_at, 2);

    // Fail over a canceled task is rejected as well.
    let mut c = fresh_task(0);
    assert!(c.cancel(1).is_ok());
    let err = c.fail("late".to_string(), 2).unwrap_err();
    assert_eq!(err.message(), "Cannot fail task in Canceled status");
    assert_eq!(c.status, TaskStatus::Canceled);
    assert!(c.error.is_none());

    // Start from Running is rejected too.
    let mut r = fresh_task(0);
    assert!(r.start(1).is_ok());
    let err = r.start(2).unwrap_err();
    assert_eq!(err.message(), "Cannot start task in Running status");
    assert_eq!(r.status, TaskStatus::Running);
    assert_eq!(r.updated_at, 1);
}

#[test]
fn cancel_allowed_from_paused_and_failed() {
    let mut t = fresh_task(0);
    assert!(t.start(1).is_ok());
    assert!(t.pause(2).is_ok());
    assert!(t.cancel(3).is_ok());
    assert_eq!(t.status, TaskStatus::Canceled);
    assert_eq!(t.progress.current_operation, "Migration canceled");

    let mut f = fresh_task(0);
    assert!(f.start(1).is_ok());
    assert!(f.fail("boom".to_string(), 2).is_ok());
    assert!(f.cancel(3).is_ok());
    assert_eq!(f.status, TaskStatus::Canceled);
}

#[test]
fn status_names() {
    let mut t = fresh_task(0);
    assert_eq!(t.status_to_string(), "Created");
    assert!(t.start(1).is_ok());
    assert_eq!(t.status_to_string(), "Running");
    assert!(t.pause(2).is_ok());
    assert_eq!(t.status_to_string(), "Paused");
}

#[test]
fn progress_percentage_and_duration() {
    let mut p = TaskProgress::new(2_000);
    assert_eq!(p.get_percentage(), None);
    p.set_total_items(200);
    p.update(50, "halfway to a quarter".to_string(), 5_000);
    assert_eq!(p.get_percentage(), Some(25));
    assert_eq!(p.get_duration(), 3_000);

    // The percentage rounds down.
    p.set_total_items(3);
    p.update(1, "a third".to_string(), 5_000);
    assert_eq!(p.get_percentage(), Some(33));

    // A zero total leaves the percentage undefined.
    p.set_total_items(0);
    assert_eq!(p.get_percentage(), None);
}
