use bodhi_migration::connection::UnifiedConnectionManager;
use bodhi_migration::errors::MigrationError;
use bodhi_migration::strategy::{
    placeholder_count, render_sql_template, strategy_from_type, CustomSQLMigrationStrategy,
    IncrementalMigrationStrategy, MigrationStrategyEnum,
};

#[test]
fn strategy_names() {
    let full = strategy_from_type("full", "t", None, None, None).unwrap();
    assert_eq!(full.get_name(), "Full Migration");

    let inc = strategy_from_type(
        "incremental",
        "t",
        Some("row-41".to_string()),
        None,
        None,
    )
    .unwrap();
    assert_eq!(inc.get_name(), "Incremental Migration");
    match inc {
        MigrationStrategyEnum::Incremental(s) => {
            assert_eq!(s.last_migration_id(), &Some("row-41".to_string()));
        }
        _ => panic!("expected the incremental variant"),
    }

    let custom = strategy_from_type(
        "custom_sql",
        "orders copy",
        None,
        Some("SELECT * FROM orders".to_string()),
        Some("INSERT INTO orders VALUES (?)".to_string()),
    )
    .unwrap();
    assert_eq!(custom.get_name(), "orders copy");
    match custom {
        MigrationStrategyEnum::CustomSQL(s) => {
            assert_eq!(s.source_sql(), "SELECT * FROM orders");
            assert_eq!(s.target_sql_template(), "INSERT INTO orders VALUES (?)");
        }
        _ => panic!("expected the custom-SQL variant"),
    }
}

#[test]
fn strategy_parameter_errors() {
    let err = strategy_from_type("custom_sql", "t", None, None, None).unwrap_err();
    assert_eq!(err.message(), "Missing source_sql parameter");
    let err =
        strategy_from_type("custom_sql", "t", None, Some("SELECT 1".to_string()), None)
            .unwrap_err();
    assert_eq!(err.message(), "Missing target_sql_template parameter");
    let err = strategy_from_type("bulk", "t", None, None, None).unwrap_err();
    assert!(matches!(err, MigrationError::ConfigError(_)));
    assert_eq!(err.message(), "Unknown strategy type: bulk");
}

#[test]
fn execute_names_the_first_missing_id() {
    let registry = UnifiedConnectionManager::new();
    let strategy = MigrationStrategyEnum::Incremental(IncrementalMigrationStrategy::new(None));
    let err = strategy.execute("left", "right", &registry).unwrap_err();
    assert!(matches!(err, MigrationError::ConnectionNotFound(_)));
    assert_eq!(err.message(), "Source database connection not found: left");
}

#[test]
fn placeholder_counting() {
    assert_eq!(placeholder_count("no parameters here"), 0);
    assert_eq!(placeholder_count("VALUES (?, ?, ?)"), 3);
    assert_eq!(placeholder_count(""), 0);
    assert_eq!(placeholder_count("???"), 3);
}

#[test]
fn template_rendering_substitutes_in_order() {
    let row = vec!["1".to_string(), "widget".to_string()];
    let s = render_sql_template("INSERT INTO parts VALUES (?, '?')", &row).unwrap();
    assert_eq!(s, "INSERT INTO parts VALUES (1, 'widget')");

    // No placeholders, no values: the template passes through unchanged.
    let s = render_sql_template("DELETE FROM parts", &Vec::new()).unwrap();
    assert_eq!(s, "DELETE FROM parts");
}

#[test]
fn template_arity_mismatch_fails_fast() {
    let row = vec!["only-one".to_string()];
    let err = render_sql_template("VALUES (?, ?)", &row).unwrap_err();
    assert!(matches!(err, MigrationError::ConfigError(_)));
    assert_eq!(
        err.message(),
        "Template placeholder count 2 does not match row arity 1"
    );

    let strategy = CustomSQLMigrationStrategy::new(
        "copy".to_string(),
        "SELECT a, b FROM t".to_string(),
        "INSERT INTO u VALUES (?, ?)".to_string(),
    );
    let rendered = strategy
        .render_target_sql(&vec!["x".to_string(), "y".to_string()])
        .unwrap();
    assert_eq!(rendered, "INSERT INTO u VALUES (x, y)");
    assert!(strategy.render_target_sql(&Vec::new()).is_err());
}
