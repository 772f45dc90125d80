//! Connection configuration: the backend kinds, the config value object, and
//! the connection-string builder with its field validation.

use vstd::prelude::*;
use vstd::string::StringExecFns;
use crate::errors::MigrationError;
use crate::string_map::ExactClone;
use crate::text::{
    contains_char, eq_ignore_ascii_case, has_prefix, append_i64_decimal, spec_eq_nocase,
    spec_has_prefix, spec_i64_string,
};

verus! {

/// The backend kinds a connection can point at.
#[derive(Clone, Copy, Debug, PartialEq, Eq, Hash, Structural)]
pub enum DatabaseType {
    Sqlite,
    MySql,
    PostgreSql,
    Redis,
}

impl DatabaseType {
    /// The canonical lower-case name of the kind.
    pub open spec fn spec_str(&self) -> Seq<char> {
        match self {
            DatabaseType::Sqlite => "sqlite"@,
            DatabaseType::MySql => "mysql"@,
            DatabaseType::PostgreSql => "postgresql"@,
            DatabaseType::Redis => "redis"@,
        }
    }

    pub fn as_str(&self) -> (r: &'static str)
        ensures
            r@ == self.spec_str(),
    {
        match self {
            DatabaseType::Sqlite => "sqlite",
            DatabaseType::MySql => "mysql",
            DatabaseType::PostgreSql => "postgresql",
            DatabaseType::Redis => "redis",
        }
    }

    /// Which kind a name denotes, letter case ignored; `postgres` is accepted
    /// beside `postgresql`.
    pub open spec fn spec_parse(s: Seq<char>) -> Option<DatabaseType> {
        if spec_eq_nocase(s, "sqlite"@) {
            Some(DatabaseType::Sqlite)
        } else if spec_eq_nocase(s, "mysql"@) {
            Some(DatabaseType::MySql)
        } else if spec_eq_nocase(s, "postgresql"@) || spec_eq_nocase(s, "postgres"@) {
            Some(DatabaseType::PostgreSql)
        } else if spec_eq_nocase(s, "redis"@) {
            Some(DatabaseType::Redis)
        } else {
            None
        }
    }

    /// Parse a backend-kind name; an unknown name is a `ConfigError` naming
    /// the offending text.
    pub fn from_str(s: &str) -> (r: Result<DatabaseType, MigrationError>)
        ensures
            match Self::spec_parse(s@) {
                Some(t) => r matches Ok(got) && got == t,
                None => r matches Err(e) && e matches MigrationError::ConfigError(m) && m@
                    == "Unknown database type: "@ + s@,
            },
    {
        if eq_ignore_ascii_case(s, "sqlite") {
            Ok(DatabaseType::Sqlite)
        } else if eq_ignore_ascii_case(s, "mysql") {
            Ok(DatabaseType::MySql)
        } else if eq_ignore_ascii_case(s, "postgresql") || eq_ignore_ascii_case(s, "postgres") {
            Ok(DatabaseType::PostgreSql)
        } else if eq_ignore_ascii_case(s, "redis") {
            Ok(DatabaseType::Redis)
        } else {
            let mut m = String::from_str("Unknown database type: ");
            m.append(s);
            Err(MigrationError::ConfigError(m))
        }
    }
}

/// The configuration an operator supplies for one connection. Which optional
/// fields are required depends on the backend kind named by `db_type`.
pub struct DatabaseConfig {
    pub id: String,
    pub name: String,
    pub db_type: String,
    pub host: Option<String>,
    pub port: Option<i64>,
    pub username: Option<String>,
    pub password: Option<String>,
    pub database: Option<String>,
    pub ssl: bool,
    pub extra: Option<String>,
    pub created_at: String,
    pub updated_at: String,
}

impl ExactClone for DatabaseConfig {
    fn exact_clone(&self) -> (r: Self) {
        DatabaseConfig {
            id: self.id.clone(),
            name: self.name.clone(),
            db_type: self.db_type.clone(),
            host: match &self.host {
                Some(v) => Some(v.clone()),
                None => None,
            },
            port: self.port,
            username: match &self.username {
                Some(v) => Some(v.clone()),
                None => None,
            },
            password: match &self.password {
                Some(v) => Some(v.clone()),
                None => None,
            },
            database: match &self.database {
                Some(v) => Some(v.clone()),
                None => None,
            },
            ssl: self.ssl,
            extra: match &self.extra {
                Some(v) => Some(v.clone()),
                None => None,
            },
            created_at: self.created_at.clone(),
            updated_at: self.updated_at.clone(),
        }
    }
}

/// Whether a key-value store URL is well-formed.
pub open spec fn spec_valid_redis_url(url: Seq<char>) -> bool {
    spec_has_prefix(url, "redis://"@)
}

/// Check the scheme of a key-value store URL.
pub fn valid_redis_url(url: &str) -> (r: bool)
    ensures
        r == spec_valid_redis_url(url@),
{
    has_prefix(url, "redis://")
}

/// The password fragment of a network connection string: `:password@`, or a
/// bare `@` when no password is set.
pub open spec fn spec_password_part(password: Option<String>) -> Seq<char> {
    match password {
        Some(p) => ":"@ + p@ + "@"@,
        None => "@"@,
    }
}

/// What the connection string of a network SQL store looks like:
/// `scheme://user[:password]@:host:port/database[ssl]`.
pub open spec fn spec_network_conn_string(
    scheme: Seq<char>,
    c: DatabaseConfig,
    default_port: int,
    ssl_part: Seq<char>,
) -> Seq<char> {
    scheme + c.username->0@ + spec_password_part(c.password) + ":"@ + c.host->0@ + ":"@
        + spec_i64_string(
        match c.port {
            Some(p) => p as int,
            None => default_port,
        },
    ) + "/"@ + c.database->0@ + (if c.ssl {
        ssl_part
    } else {
        Seq::empty()
    })
}

/// The connection string for `c` as a backend of kind `t`, or the exact
/// message of the `ConfigError` reported instead.
pub open spec fn spec_connection_string(c: DatabaseConfig, t: DatabaseType) -> Result<
    Seq<char>,
    Seq<char>,
> {
    match t {
        DatabaseType::Sqlite => match c.database {
            None => Err("SQLite database path is required"@),
            Some(p) => if p@.contains('\t') || p@.contains('\n') {
                Err("SQLite database path contains invalid characters: "@ + p@)
            } else {
                Ok("sqlite://"@ + p@)
            },
        },
        DatabaseType::MySql => if c.host is None {
            Err("MySQL host is required"@)
        } else if c.username is None {
            Err("MySQL username is required"@)
        } else if c.database is None {
            Err("MySQL database is required"@)
        } else {
            Ok(spec_network_conn_string("mysql://"@, c, 3306, "&ssl-mode=required"@))
        },
        DatabaseType::PostgreSql => if c.host is None {
            Err("PostgreSQL host is required"@)
        } else if c.username is None {
            Err("PostgreSQL username is required"@)
        } else if c.database is None {
            Err("PostgreSQL database is required"@)
        } else {
            Ok(spec_network_conn_string("postgresql://"@, c, 5432, "?sslmode=require"@))
        },
        DatabaseType::Redis => Err("key-value store connections do not use a SQL connection string"@),
    }
}

fn build_network_conn_string(scheme: &str, config: &DatabaseConfig, default_port: i64, ssl_part: &str) -> (r:
    String)
    requires
        config.host is Some,
        config.username is Some,
        config.database is Some,
    ensures
        r@ == spec_network_conn_string(scheme@, *config, default_port as int, ssl_part@),
{
    let mut m = String::from_str(scheme);
    match &config.username {
        Some(u) => m.append(u.as_str()),
        None => (),
    }
    match &config.password {
        Some(p) => {
            m.append(":");
            m.append(p.as_str());
            m.append("@");
        },
        None => m.append("@"),
    }
    m.append(":");
    match &config.host {
        Some(h) => m.append(h.as_str()),
        None => (),
    }
    m.append(":");
    let port = match config.port {
        Some(p) => p,
        None => default_port,
    };
    append_i64_decimal(&mut m, port);
    m.append("/");
    match &config.database {
        Some(d) => m.append(d.as_str()),
        None => (),
    }
    if config.ssl {
        m.append(ssl_part);
    }
    proof {
        assert(m@ =~= spec_network_conn_string(scheme@, *config, default_port as int, ssl_part@));
    }
    m
}

/// Build the connection string a driver would open for `config` as a backend
/// of kind `db_type`, validating the backend-specific required fields; a
/// missing or malformed field is a `ConfigError` naming it.
pub fn build_connection_string(config: &DatabaseConfig, db_type: &DatabaseType) -> (r: Result<
    String,
    MigrationError,
>)
    ensures
        match spec_connection_string(*config, *db_type) {
            Ok(s) => r matches Ok(cs) && cs@ == s,
            Err(msg) => r matches Err(e) && e matches MigrationError::ConfigError(m) && m@ == msg,
        },
{
    match db_type {
        DatabaseType::Sqlite => {
            match &config.database {
                None => Err(MigrationError::ConfigError(
                    String::from_str("SQLite database path is required"),
                )),
                Some(p) => {
                    if contains_char(p.as_str(), '\t') || contains_char(p.as_str(), '\n') {
                        let mut m = String::from_str(
                            "SQLite database path contains invalid characters: ",
                        );
                        m.append(p.as_str());
                        Err(MigrationError::ConfigError(m))
                    } else {
                        let mut m = String::from_str("sqlite://");
                        m.append(p.as_str());
                        Ok(m)
                    }
                },
            }
        },
        DatabaseType::MySql => {
            if config.host.is_none() {
                Err(MigrationError::ConfigError(String::from_str("MySQL host is required")))
            } else if config.username.is_none() {
                Err(MigrationError::ConfigError(String::from_str("MySQL username is required")))
            } else if config.database.is_none() {
                Err(MigrationError::ConfigError(String::from_str("MySQL database is required")))
            } else {
                Ok(build_network_conn_string("mysql://", config, 3306, "&ssl-mode=required"))
            }
        },
        DatabaseType::PostgreSql => {
            if config.host.is_none() {
                Err(MigrationError::ConfigError(String::from_str("PostgreSQL host is required")))
            } else if config.username.is_none() {
                Err(MigrationError::ConfigError(
                    String::from_str("PostgreSQL username is required"),
                ))
            } else if config.database.is_none() {
                Err(MigrationError::ConfigError(
                    String::from_str("PostgreSQL database is required"),
                ))
            } else {
                Ok(build_network_conn_string("postgresql://", config, 5432, "?sslmode=require"))
            }
        },
        DatabaseType::Redis => Err(MigrationError::ConfigError(
            String::from_str("key-value store connections do not use a SQL connection string"),
        )),
    }
}

} // verus!
