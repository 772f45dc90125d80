use bodhi_migration::config::DatabaseConfig;
use bodhi_migration::connection::UnifiedConnectionManager;
use bodhi_migration::errors::MigrationError;
use bodhi_migration::pipeline::MigrationPipeline;
use bodhi_migration::strategy::{FullMigrationStrategy, MigrationStrategyEnum};
use bodhi_migration::task::{MigrationTask, TaskStatus};

fn file_store_config(path: &str) -> DatabaseConfig {
    DatabaseConfig {
        id: String::new(),
        name: format!("SQLite Database {}", path),
        db_type: "sqlite".to_string(),
        host: None,
        port: None,
        username: None,
        password: None,
        database: Some(path.to_string()),
        ssl: false,
        extra: None,
        created_at: String::new(),
        updated_at: String::new(),
    }
}

fn full_task(source: &str, target: &str, now: u64) -> MigrationTask {
    MigrationTask::new(
        "nightly copy".to_string(),
        "copy A to B".to_string(),
        source.to_string(),
        target.to_string(),
        MigrationStrategyEnum::Full(FullMigrationStrategy::new()),
        now,
    )
}

#[test]
fn full_migration_between_two_live_stores_completes() {
    let mut registry = UnifiedConnectionManager::new();
    let a = registry.add_connection(file_store_config("/tmp/a.db")).unwrap();
    let b = registry.add_connection(file_store_config("/tmp/b.db")).unwrap();

    let mut pipeline = MigrationPipeline::new();
    let id = pipeline.add_task(full_task(&a, &b, 100));

    assert!(pipeline.start_task(&id, 200).is_ok());
    assert_eq!(pipeline.get_task(&id).unwrap().status, TaskStatus::Running);

    // The spawned unit runs the strategy and writes the outcome back.
    assert!(pipeline.execute_task(&registry, &id, 300).is_ok());
    let done = pipeline.get_task(&id).unwrap();
    assert_eq!(done.status, TaskStatus::Completed);
    assert_eq!(done.completed_at, Some(300));
    assert!(done.error.is_none());
}

#[test]
fn missing_source_fails_only_in_the_background() {
    let registry = UnifiedConnectionManager::new();
    let mut pipeline = MigrationPipeline::new();
    let id = pipeline.add_task(full_task("ghost-source", "ghost-target", 0));

    // The synchronous transition checks the task state only, not the
    // connections, so start reports success.
    assert!(pipeline.start_task(&id, 1).is_ok());
    assert_eq!(pipeline.get_task(&id).unwrap().status, TaskStatus::Running);

    // The execution unit then fails and records the error on the task.
    assert!(pipeline.execute_task(&registry, &id, 2).is_ok());
    let failed = pipeline.get_task(&id).unwrap();
    assert_eq!(failed.status, TaskStatus::Failed);
    let message = failed.error.unwrap();
    assert!(message.contains("not found"));
    assert_eq!(message, "Source database connection not found: ghost-source");
}

#[test]
fn pause_on_a_completed_task_changes_nothing() {
    let mut registry = UnifiedConnectionManager::new();
    let a = registry.add_connection(file_store_config("/tmp/p1.db")).unwrap();
    let b = registry.add_connection(file_store_config("/tmp/p2.db")).unwrap();
    let mut pipeline = MigrationPipeline::new();
    let id = pipeline.add_task(full_task(&a, &b, 0));
    assert!(pipeline.start_task(&id, 1).is_ok());
    assert!(pipeline.execute_task(&registry, &id, 2).is_ok());

    let before = pipeline.get_task(&id).unwrap();
    let err = pipeline.pause_task(&id, 9).unwrap_err();
    assert!(matches!(err, MigrationError::InvalidTransition(_)));
    assert_eq!(err.message(), "Cannot pause task in Completed status");

    let after = pipeline.get_task(&id).unwrap();
    assert_eq!(after.status, before.status);
    assert_eq!(after.updated_at, before.updated_at);
}

#[test]
fn cancel_wins_over_a_still_running_unit() {
    let mut registry = UnifiedConnectionManager::new();
    let a = registry.add_connection(file_store_config("/tmp/c1.db")).unwrap();
    let b = registry.add_connection(file_store_config("/tmp/c2.db")).unwrap();
    let mut pipeline = MigrationPipeline::new();
    let id = pipeline.add_task(full_task(&a, &b, 0));
    assert!(pipeline.start_task(&id, 1).is_ok());

    // Cancel reports immediately, though the background unit still runs.
    assert!(pipeline.cancel_task(&id, 2).is_ok());
    assert_eq!(pipeline.get_task(&id).unwrap().status, TaskStatus::Canceled);

    // The unit's late write is rejected by the state check, and the task
    // stays canceled.
    let err = pipeline.execute_task(&registry, &id, 3).unwrap_err();
    assert!(matches!(err, MigrationError::InvalidTransition(_)));
    assert!(err.message().starts_with("Task is not running: "));
    assert_eq!(pipeline.get_task(&id).unwrap().status, TaskStatus::Canceled);
}

#[test]
fn retry_gives_a_fresh_running_cycle() {
    let registry = UnifiedConnectionManager::new();
    let mut pipeline = MigrationPipeline::new();
    let id = pipeline.add_task(full_task("gone", "gone-too", 0));
    assert!(pipeline.start_task(&id, 1).is_ok());
    assert!(pipeline.execute_task(&registry, &id, 2).is_ok());

    let failed = pipeline.get_task(&id).unwrap();
    assert_eq!(failed.status, TaskStatus::Failed);
    assert!(failed.error.is_some());
    assert_eq!(failed.started_at, Some(1));

    assert!(pipeline.retry_task(&id, 50).is_ok());
    let retried = pipeline.get_task(&id).unwrap();
    assert_eq!(retried.status, TaskStatus::Running);
    assert!(retried.error.is_none());
    assert_eq!(retried.progress.completed_items, 0);
    assert_eq!(retried.started_at, Some(50));
    assert!(retried.completed_at.is_none());
}

#[test]
fn lifecycle_operations_on_an_unknown_task_are_reported() {
    let mut pipeline = MigrationPipeline::new();
    assert!(pipeline.get_task("nobody").is_none());
    let err = pipeline.start_task("nobody", 1).unwrap_err();
    assert_eq!(err.message(), "Task not found: nobody");
    let err = pipeline.pause_task("nobody", 1).unwrap_err();
    assert_eq!(err.message(), "Task not found: nobody");
    let err = pipeline.cancel_task("nobody", 1).unwrap_err();
    assert_eq!(err.message(), "Task not found: nobody");
    let err = pipeline.retry_task("nobody", 1).unwrap_err();
    assert_eq!(err.message(), "Task not found: nobody");
}

#[test]
fn update_task_requires_a_known_id() {
    let mut pipeline = MigrationPipeline::new();
    let task = full_task("a", "b", 0);
    let stray = full_task("a", "b", 0);
    let err = pipeline.update_task(stray).unwrap_err();
    assert!(err.message().starts_with("Task not found: "));

    let id = pipeline.add_task(task);
    let mut copy = pipeline.get_task(&id).unwrap();
    copy.description = "rewritten".to_string();
    assert!(pipeline.update_task(copy).is_ok());
    assert_eq!(pipeline.get_task(&id).unwrap().description, "rewritten");
}

#[test]
fn get_all_tasks_lists_every_task_once() {
    let mut pipeline = MigrationPipeline::new();
    let id1 = pipeline.add_task(full_task("a", "b", 0));
    let id2 = pipeline.add_task(full_task("c", "d", 0));
    let all = pipeline.get_all_tasks();
    assert_eq!(all.len(), 2);
    let ids: Vec<String> = all.iter().map(|t| t.id.clone()).collect();
    assert!(ids.contains(&id1));
    assert!(ids.contains(&id2));
}
