use bodhi_migration::config::{build_connection_string, DatabaseConfig, DatabaseType};
use bodhi_migration::connection::{
    RedisConfig, RedisConnectionManager, RedisManager, UnifiedConnection,
    UnifiedConnectionManager,
};
use bodhi_migration::errors::MigrationError;

fn sqlite_config(id: &str, path: &str) -> DatabaseConfig {
    DatabaseConfig {
        id: id.to_string(),
        name: format!("SQLite Database {}", path),
        db_type: "sqlite".to_string(),
        host: None,
        port: None,
        username: None,
        password: None,
        database: Some(path.to_string()),
        ssl: false,
        extra: None,
        created_at: "2024-01-01T00:00:00Z".to_string(),
        updated_at: "2024-01-01T00:00:00Z".to_string(),
    }
}

fn redis_config(id: &str, url: &str) -> DatabaseConfig {
    DatabaseConfig {
        id: id.to_string(),
        name: "cache".to_string(),
        db_type: "redis".to_string(),
        host: Some(url.to_string()),
        port: None,
        username: None,
        password: None,
        database: None,
        ssl: false,
        extra: None,
        created_at: String::new(),
        updated_at: String::new(),
    }
}

#[test]
fn add_then_get_and_test_succeed() {
    let mut mgr = UnifiedConnectionManager::new();
    let id = mgr.add_connection(sqlite_config("", "/tmp/a.db")).unwrap();
    assert!(mgr.get_connection(&id).is_some());
    assert!(mgr.test_connection(&id).is_ok());

    // An id never issued is reported as not found, by get and test alike.
    assert!(mgr.get_connection("never-issued").is_none());
    let err = mgr.test_connection("never-issued").unwrap_err();
    assert!(matches!(err, MigrationError::ConnectionNotFound(_)));
    assert_eq!(err.message(), "Connection not found");
}

#[test]
fn identical_configs_get_distinct_ids() {
    let mut mgr = UnifiedConnectionManager::new();
    let cfg = sqlite_config("dup", "/tmp/same.db");
    let cfg2 = sqlite_config("dup", "/tmp/same.db");
    let id1 = mgr.add_connection(cfg).unwrap();
    let id2 = mgr.add_connection(cfg2).unwrap();
    assert_eq!(id1, "dup");
    assert_ne!(id1, id2);
    assert!(mgr.get_connection(&id1).is_some());
    assert!(mgr.get_connection(&id2).is_some());
}

#[test]
fn explicit_id_is_honored_when_free() {
    let mut mgr = UnifiedConnectionManager::new();
    let id = mgr.add_connection(sqlite_config("config_db", "/tmp/c.db")).unwrap();
    assert_eq!(id, "config_db");
    // An empty id asks the registry to generate one.
    let generated = mgr.add_connection(sqlite_config("", "/tmp/d.db")).unwrap();
    assert!(!generated.is_empty());
    assert_ne!(generated, "config_db");
}

#[test]
fn remove_connection_detaches() {
    let mut mgr = UnifiedConnectionManager::new();
    let id = mgr.add_connection(sqlite_config("", "/tmp/r.db")).unwrap();
    assert!(mgr.remove_connection(&id).is_ok());
    assert!(mgr.get_connection(&id).is_none());
    let err = mgr.remove_connection(&id).unwrap_err();
    assert_eq!(err.message(), "Connection not found");
}

#[test]
fn connection_types_are_reported() {
    let mut mgr = UnifiedConnectionManager::new();
    let sql_id = mgr.add_connection(sqlite_config("", "/tmp/t.db")).unwrap();
    let kv_id = mgr.add_connection(redis_config("", "redis://localhost:6379")).unwrap();
    assert_eq!(mgr.get_connection_type(&sql_id), Some(DatabaseType::Sqlite));
    assert_eq!(mgr.get_connection_type(&kv_id), Some(DatabaseType::Redis));
    assert_eq!(mgr.get_connection_type("nope"), None);
    assert!(mgr.get_sqlx_connection(&sql_id).is_some());
    assert!(mgr.get_sqlx_connection(&kv_id).is_none());
    assert!(mgr.get_redis_connection(&kv_id).is_some());
    let ids = mgr.get_all_connection_ids();
    assert_eq!(ids.len(), 2);
    assert!(ids.contains(&sql_id));
    assert!(ids.contains(&kv_id));
}

#[test]
fn malformed_redis_url_is_a_config_error() {
    let mut mgr = UnifiedConnectionManager::new();
    let err = mgr.add_connection(redis_config("", "http://localhost:6379")).unwrap_err();
    assert!(matches!(err, MigrationError::ConfigError(_)));
    assert_eq!(err.message(), "Invalid Redis URL format: http://localhost:6379");
    assert!(mgr.get_all_connection_ids().is_empty());
}

#[test]
fn redis_db_index_is_parsed_with_zero_fallback() {
    let mut cfg = redis_config("", "redis://localhost:6379");
    cfg.database = Some("7".to_string());
    let mut mgr = UnifiedConnectionManager::new();
    let id = mgr.add_connection(cfg).unwrap();
    let conn = mgr.get_redis_connection(&id).unwrap();
    assert_eq!(conn.config.db, Some(7));

    let mut cfg2 = redis_config("", "redis://localhost:6379");
    cfg2.database = Some("not a number".to_string());
    let id2 = mgr.add_connection(cfg2).unwrap();
    assert_eq!(mgr.get_redis_connection(&id2).unwrap().config.db, Some(0));

    let mut cfg3 = redis_config("", "redis://localhost:6379");
    cfg3.database = Some("-3".to_string());
    let id3 = mgr.add_connection(cfg3).unwrap();
    assert_eq!(mgr.get_redis_connection(&id3).unwrap().config.db, Some(-3));
}

#[test]
fn unknown_database_type_is_rejected() {
    let mut cfg = sqlite_config("", "/tmp/x.db");
    cfg.db_type = "oracle".to_string();
    let mut mgr = UnifiedConnectionManager::new();
    let err = mgr.add_connection(cfg).unwrap_err();
    assert_eq!(err.message(), "Unknown database type: oracle");
}

#[test]
fn database_type_names_parse_case_insensitively() {
    assert_eq!(DatabaseType::from_str("SQLite").unwrap(), DatabaseType::Sqlite);
    assert_eq!(DatabaseType::from_str("MYSQL").unwrap(), DatabaseType::MySql);
    assert_eq!(DatabaseType::from_str("postgresql").unwrap(), DatabaseType::PostgreSql);
    assert_eq!(DatabaseType::from_str("Postgres").unwrap(), DatabaseType::PostgreSql);
    assert_eq!(DatabaseType::from_str("redis").unwrap(), DatabaseType::Redis);
    assert_eq!(DatabaseType::Sqlite.as_str(), "sqlite");
    assert_eq!(DatabaseType::PostgreSql.as_str(), "postgresql");
}

#[test]
fn sqlite_connection_string_is_a_file_uri() {
    let cfg = sqlite_config("", "/tmp/data.db");
    let s = build_connection_string(&cfg, &DatabaseType::Sqlite).unwrap();
    assert_eq!(s, "sqlite:///tmp/data.db");

    let mut bad = sqlite_config("", "/tmp/da\tta.db");
    let err = build_connection_string(&bad, &DatabaseType::Sqlite).unwrap_err();
    assert_eq!(
        err.message(),
        "SQLite database path contains invalid characters: /tmp/da\tta.db"
    );
    bad.database = None;
    let err = build_connection_string(&bad, &DatabaseType::Sqlite).unwrap_err();
    assert_eq!(err.message(), "SQLite database path is required");
}

#[test]
fn mysql_connection_string_carries_every_part() {
    let cfg = DatabaseConfig {
        id: String::new(),
        name: "db".to_string(),
        db_type: "mysql".to_string(),
        host: Some("db.example".to_string()),
        port: None,
        username: Some("root".to_string()),
        password: Some("SECRET-REDACTED".to_string()),
        database: Some("orders".to_string()),
        ssl: true,
        extra: None,
        created_at: String::new(),
        updated_at: String::new(),
    };
    let s = build_connection_string(&cfg, &DatabaseType::MySql).unwrap();
    assert_eq!(
        s,
        "mysql://root:SECRET-REDACTED@:db.example:3306/orders&ssl-mode=required"
    );

    let mut no_pw = cfg;
    no_pw.password = None;
    no_pw.port = Some(3307);
    no_pw.ssl = false;
    let s = build_connection_string(&no_pw, &DatabaseType::MySql).unwrap();
    assert_eq!(s, "mysql://root@:db.example:3307/orders");

    no_pw.username = None;
    let err = build_connection_string(&no_pw, &DatabaseType::MySql).unwrap_err();
    assert_eq!(err.message(), "MySQL username is required");
    no_pw.host = None;
    let err = build_connection_string(&no_pw, &DatabaseType::MySql).unwrap_err();
    assert_eq!(err.message(), "MySQL host is required");
}

#[test]
fn postgres_connection_string_uses_its_own_defaults() {
    let cfg = DatabaseConfig {
        id: String::new(),
        name: "db".to_string(),
        db_type: "postgresql".to_string(),
        host: Some("pg.example".to_string()),
        port: None,
        username: Some("app".to_string()),
        password: None,
        database: Some("inventory".to_string()),
        ssl: true,
        extra: None,
        created_at: String::new(),
        updated_at: String::new(),
    };
    let s = build_connection_string(&cfg, &DatabaseType::PostgreSql).unwrap();
    assert_eq!(s, "postgresql://app@:pg.example:5432/inventory?sslmode=require");

    let mut missing = cfg;
    missing.database = None;
    let err = build_connection_string(&missing, &DatabaseType::PostgreSql).unwrap_err();
    assert_eq!(err.message(), "PostgreSQL database is required");
}

#[test]
fn redis_manager_tracks_its_connections() {
    let mut mgr = RedisManager::new();
    let conn = RedisConnectionManager::new(RedisConfig {
        url: "redis://cache:6379".to_string(),
        db: Some(1),
    })
    .unwrap();
    mgr.add_connection("kv-1".to_string(), conn);
    assert!(mgr.get_connection("kv-1").is_some());
    assert!(mgr.test_connection("kv-1").is_ok());
    assert!(mgr.test_connection("kv-2").is_err());
    assert_eq!(mgr.get_all_connection_ids(), vec!["kv-1".to_string()]);
    assert!(mgr.remove_connection("kv-1").is_some());
    assert!(mgr.get_connection("kv-1").is_none());
}

#[test]
fn unified_connection_reports_its_kind() {
    let mut mgr = UnifiedConnectionManager::new();
    let id = mgr.add_connection(sqlite_config("", "/tmp/k.db")).unwrap();
    match mgr.get_connection(&id).unwrap() {
        UnifiedConnection::Sqlx(c) => {
            assert_eq!(c.db_type, DatabaseType::Sqlite);
            assert_eq!(c.connection_string, "sqlite:///tmp/k.db");
            assert!(c.test_connection().is_ok());
        }
        UnifiedConnection::Redis(_) => panic!("expected a SQL-store connection"),
    }
}

#[test]
fn error_variants_carry_their_messages() {
    let e = MigrationError::BackendError("driver said no".to_string());
    assert_eq!(e.message(), "driver said no");
    let e = MigrationError::SerializationError("no wire form".to_string());
    assert_eq!(e.message(), "no wire form");
}
