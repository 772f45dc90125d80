use bodhi_migration::config::{build_connection_string, DatabaseConfig, DatabaseType};
use bodhi_migration::text::{contains_char, eq_ignore_ascii_case, has_prefix, parse_i64_or_zero};

#[test]
fn prefix_and_character_search() {
    assert!(has_prefix("redis://localhost", "redis://"));
    assert!(!has_prefix("rediss://localhost", "redis://"));
    assert!(!has_prefix("redis:/", "redis://"));
    assert!(has_prefix("anything", ""));
    assert!(contains_char("a\tb", '\t'));
    assert!(!contains_char("ab", '\t'));
    assert!(!contains_char("", 'x'));
}

#[test]
fn case_insensitive_comparison_is_ascii_only() {
    assert!(eq_ignore_ascii_case("SQLite", "sqlite"));
    assert!(eq_ignore_ascii_case("MYSQL", "mysql"));
    assert!(!eq_ignore_ascii_case("mysql", "mysq"));
    assert!(!eq_ignore_ascii_case("mysql2", "mysql"));
}

#[test]
fn integer_parsing_matches_the_driver_convention() {
    assert_eq!(parse_i64_or_zero("0"), 0);
    assert_eq!(parse_i64_or_zero("42"), 42);
    assert_eq!(parse_i64_or_zero("+42"), 42);
    assert_eq!(parse_i64_or_zero("-3"), -3);
    // Anything that does not denote an i64 falls back to zero.
    assert_eq!(parse_i64_or_zero(""), 0);
    assert_eq!(parse_i64_or_zero("-"), 0);
    assert_eq!(parse_i64_or_zero("1e5"), 0);
    assert_eq!(parse_i64_or_zero("twelve"), 0);
    assert_eq!(parse_i64_or_zero(" 7"), 0);
}

#[test]
fn integer_parsing_at_the_boundaries() {
    assert_eq!(parse_i64_or_zero("9223372036854775807"), i64::MAX);
    assert_eq!(parse_i64_or_zero("-9223372036854775808"), i64::MIN);
    // One past either end denotes nothing.
    assert_eq!(parse_i64_or_zero("9223372036854775808"), 0);
    assert_eq!(parse_i64_or_zero("-9223372036854775809"), 0);
    assert_eq!(parse_i64_or_zero("99999999999999999999999"), 0);
}

#[test]
fn ports_render_in_decimal_whatever_their_sign() {
    let mut cfg = DatabaseConfig {
        id: String::new(),
        name: "db".to_string(),
        db_type: "mysql".to_string(),
        host: Some("h".to_string()),
        port: Some(33060),
        username: Some("u".to_string()),
        password: None,
        database: Some("d".to_string()),
        ssl: false,
        extra: None,
        created_at: String::new(),
        updated_at: String::new(),
    };
    let s = build_connection_string(&cfg, &DatabaseType::MySql).unwrap();
    assert_eq!(s, "mysql://u@:h:33060/d");

    cfg.port = Some(-1);
    let s = build_connection_string(&cfg, &DatabaseType::MySql).unwrap();
    assert_eq!(s, "mysql://u@:h:-1/d");
}
