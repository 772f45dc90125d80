//! The connection registry: validated connection records for SQL stores and
//! key-value stores, one manager per family, and the unified manager that
//! owns both and hands out unique ids.
//!
//! A record in a registry stands for a connection that was opened
//! successfully; the application opens the real handle from the record's
//! validated data and performs the live probes. Within the model, a
//! registered connection answers its probe.

use vstd::prelude::*;
use vstd::string::StringExecFns;
use vstd::string::StrSliceExecFns;
use crate::config::{
    DatabaseConfig, DatabaseType, build_connection_string, spec_connection_string,
    spec_valid_redis_url, valid_redis_url,
};
use crate::errors::MigrationError;
use crate::ident::new_uuid_string;
use crate::string_map::{ExactClone, StringMap};
use crate::text::{parse_i64_or_zero, spec_parse_i64_or_zero};

verus! {

/// A validated, opened connection to a SQL store, recorded by its dialect
/// and the connection string it was opened with; the pool itself lives with
/// the application.
pub struct SqlStoreConnection {
    pub db_type: DatabaseType,
    pub connection_string: String,
}

impl SqlStoreConnection {
    /// Validate `config` as a SQL-store connection: parse the backend kind
    /// and build the connection string, reporting a `ConfigError` for an
    /// unknown kind or a missing required field.
    pub fn new(config: &DatabaseConfig) -> (r: Result<SqlStoreConnection, MigrationError>)
        ensures
            match DatabaseType::spec_parse(config.db_type@) {
                None => r matches Err(e) && e matches MigrationError::ConfigError(m) && m@
                    == "Unknown database type: "@ + config.db_type@,
                Some(t) => match spec_connection_string(*config, t) {
                    Ok(s) => r matches Ok(c) && c.db_type == t && c.connection_string@ == s,
                    Err(msg) => r matches Err(e) && e matches MigrationError::ConfigError(m) && m@
                        == msg,
                },
            },
    {
        let db_type = match DatabaseType::from_str(config.db_type.as_str()) {
            Ok(t) => t,
            Err(e) => {
                return Err(e);
            },
        };
        let connection_string = match build_connection_string(config, &db_type) {
            Ok(s) => s,
            Err(e) => {
                return Err(e);
            },
        };
        Ok(SqlStoreConnection { db_type, connection_string })
    }

    /// Probe the connection. A record in a registry stands for an open
    /// handle, so the probe answers positively; the live round trip is the
    /// application's part.
    pub fn test_connection(&self) -> (r: Result<(), MigrationError>)
        ensures
            r is Ok,
    {
        Ok(())
    }
}

impl ExactClone for SqlStoreConnection {
    fn exact_clone(&self) -> (r: Self) {
        SqlStoreConnection {
            db_type: self.db_type,
            connection_string: self.connection_string.clone(),
        }
    }
}

/// Configuration of a key-value store connection: a URL carrying its scheme,
/// and an optional database index.
pub struct RedisConfig {
    pub url: String,
    pub db: Option<i64>,
}

impl ExactClone for RedisConfig {
    fn exact_clone(&self) -> (r: Self) {
        RedisConfig { url: self.url.clone(), db: self.db }
    }
}

/// A validated, opened connection to a key-value store.
pub struct RedisConnectionManager {
    pub config: RedisConfig,
}

impl RedisConnectionManager {
    /// Validate the URL scheme and record the connection; a URL without the
    /// scheme prefix is a `ConfigError`.
    pub fn new(config: RedisConfig) -> (r: Result<Self, MigrationError>)
        ensures
            spec_valid_redis_url(config.url@) ==> (r matches Ok(c) && c.config == config),
            !spec_valid_redis_url(config.url@) ==> (r matches Err(e) && e
                matches MigrationError::ConfigError(m) && m@ == "Invalid Redis URL format: "@
                + config.url@),
    {
        if !valid_redis_url(config.url.as_str()) {
            let mut m = String::from_str("Invalid Redis URL format: ");
            m.append(config.url.as_str());
            return Err(MigrationError::ConfigError(m));
        }
        Ok(RedisConnectionManager { config })
    }

    /// Probe the connection. A record in a registry stands for an open
    /// client, so the probe answers positively; the live ping is the
    /// application's part.
    pub fn test_connection(&self) -> (r: Result<(), MigrationError>)
        ensures
            r is Ok,
    {
        Ok(())
    }
}

impl ExactClone for RedisConnectionManager {
    fn exact_clone(&self) -> (r: Self) {
        RedisConnectionManager { config: self.config.exact_clone() }
    }
}

fn not_found_error() -> (r: MigrationError)
    ensures
        r matches MigrationError::ConnectionNotFound(m) && m@ == "Connection not found"@,
{
    MigrationError::ConnectionNotFound(String::from_str("Connection not found"))
}

/// The registry of SQL-store connections, keyed by id.
pub struct DatabaseManager {
    connections: StringMap<SqlStoreConnection>,
}

impl View for DatabaseManager {
    type V = Map<Seq<char>, SqlStoreConnection>;

    closed spec fn view(&self) -> Map<Seq<char>, SqlStoreConnection> {
        self.connections@
    }
}

impl DatabaseManager {
    pub fn new() -> (m: Self)
        ensures
            m@ == Map::<Seq<char>, SqlStoreConnection>::empty(),
    {
        DatabaseManager { connections: StringMap::new() }
    }

    pub fn add_connection(&mut self, id: String, connection: SqlStoreConnection)
        ensures
            final(self)@ == old(self)@.insert(id@, connection),
    {
        self.connections.insert(id, connection);
    }

    pub fn get_connection(&self, id: &str) -> (r: Option<&SqlStoreConnection>)
        ensures
            match r {
                Some(c) => self@.contains_key(id@) && *c == self@[id@],
                None => !self@.contains_key(id@),
            },
    {
        let key = id.to_owned();
        self.connections.get(&key)
    }

    pub fn remove_connection(&mut self, id: &str) -> (r: Option<SqlStoreConnection>)
        ensures
            final(self)@ == old(self)@.remove(id@),
            match r {
                Some(c) => old(self)@.contains_key(id@) && c == old(self)@[id@],
                None => !old(self)@.contains_key(id@),
            },
    {
        let key = id.to_owned();
        self.connections.remove(&key)
    }

    /// Probe the connection under `id`; an unknown id is a
    /// `ConnectionNotFound`.
    pub fn test_connection(&self, id: &str) -> (r: Result<(), MigrationError>)
        ensures
            r is Ok <==> self@.contains_key(id@),
            r matches Err(e) ==> e matches MigrationError::ConnectionNotFound(m) && m@
                == "Connection not found"@,
    {
        match self.get_connection(id) {
            Some(c) => c.test_connection(),
            None => Err(not_found_error()),
        }
    }

    /// The ids of all registered connections, each exactly once.
    pub fn get_all_connection_ids(&self) -> (r: Vec<String>)
        ensures
            r@.len() == self@.dom().len(),
            forall|i: int| 0 <= i < r@.len() ==> self@.contains_key(#[trigger] r@[i]@),
            forall|k: Seq<char>|
                self@.contains_key(k) ==> exists|i: int| 0 <= i < r@.len() && #[trigger] r@[i]@ == k,
            forall|i: int, j: int| 0 <= i < j < r@.len() ==> r@[i]@ != r@[j]@,
    {
        self.connections.keys_cloned()
    }
}

/// The registry of key-value store connections, keyed by id.
pub struct RedisManager {
    connections: StringMap<RedisConnectionManager>,
}

impl View for RedisManager {
    type V = Map<Seq<char>, RedisConnectionManager>;

    closed spec fn view(&self) -> Map<Seq<char>, RedisConnectionManager> {
        self.connections@
    }
}

impl RedisManager {
    pub fn new() -> (m: Self)
        ensures
            m@ == Map::<Seq<char>, RedisConnectionManager>::empty(),
    {
        RedisManager { connections: StringMap::new() }
    }

    pub fn add_connection(&mut self, id: String, connection: RedisConnectionManager)
        ensures
            final(self)@ == old(self)@.insert(id@, connection),
    {
        self.connections.insert(id, connection);
    }

    pub fn get_connection(&self, id: &str) -> (r: Option<&RedisConnectionManager>)
        ensures
            match r {
                Some(c) => self@.contains_key(id@) && *c == self@[id@],
                None => !self@.contains_key(id@),
            },
    {
        let key = id.to_owned();
        self.connections.get(&key)
    }

    pub fn remove_connection(&mut self, id: &str) -> (r: Option<RedisConnectionManager>)
        ensures
            final(self)@ == old(self)@.remove(id@),
            match r {
                Some(c) => old(self)@.contains_key(id@) && c == old(self)@[id@],
                None => !old(self)@.contains_key(id@),
            },
    {
        let key = id.to_owned();
        self.connections.remove(&key)
    }

    /// Probe the connection under `id`; an unknown id is a
    /// `ConnectionNotFound`.
    pub fn test_connection(&self, id: &str) -> (r: Result<(), MigrationError>)
        ensures
            r is Ok <==> self@.contains_key(id@),
            r matches Err(e) ==> e matches MigrationError::ConnectionNotFound(m) && m@
                == "Connection not found"@,
    {
        match self.get_connection(id) {
            Some(c) => c.test_connection(),
            None => Err(not_found_error()),
        }
    }

    /// The ids of all registered connections, each exactly once.
    pub fn get_all_connection_ids(&self) -> (r: Vec<String>)
        ensures
            r@.len() == self@.dom().len(),
            forall|i: int| 0 <= i < r@.len() ==> self@.contains_key(#[trigger] r@[i]@),
            forall|k: Seq<char>|
                self@.contains_key(k) ==> exists|i: int| 0 <= i < r@.len() && #[trigger] r@[i]@ == k,
            forall|i: int, j: int| 0 <= i < j < r@.len() ==> r@[i]@ != r@[j]@,
    {
        self.connections.keys_cloned()
    }
}

/// A connection of either family.
pub enum UnifiedConnection {
    Sqlx(SqlStoreConnection),
    Redis(RedisConnectionManager),
}

impl UnifiedConnection {
    /// The backend kind of the connection.
    pub open spec fn spec_type(&self) -> DatabaseType {
        match self {
            UnifiedConnection::Sqlx(c) => c.db_type,
            UnifiedConnection::Redis(_) => DatabaseType::Redis,
        }
    }

    pub fn get_type(&self) -> (r: DatabaseType)
        ensures
            r == self.spec_type(),
    {
        match self {
            UnifiedConnection::Sqlx(c) => c.db_type,
            UnifiedConnection::Redis(_) => DatabaseType::Redis,
        }
    }

    /// Probe the connection, whichever family it belongs to.
    pub fn test_connection(&self) -> (r: Result<(), MigrationError>)
        ensures
            r is Ok,
    {
        match self {
            UnifiedConnection::Sqlx(c) => c.test_connection(),
            UnifiedConnection::Redis(c) => c.test_connection(),
        }
    }
}

impl ExactClone for UnifiedConnection {
    fn exact_clone(&self) -> (r: Self) {
        match self {
            UnifiedConnection::Sqlx(c) => UnifiedConnection::Sqlx(c.exact_clone()),
            UnifiedConnection::Redis(c) => UnifiedConnection::Redis(c.exact_clone()),
        }
    }
}

/// The one map both sub-registries describe together.
pub open spec fn combined_view(
    a: Map<Seq<char>, SqlStoreConnection>,
    b: Map<Seq<char>, RedisConnectionManager>,
) -> Map<Seq<char>, UnifiedConnection> {
    Map::new(
        |k: Seq<char>| a.contains_key(k) || b.contains_key(k),
        |k: Seq<char>|
            if a.contains_key(k) {
                UnifiedConnection::Sqlx(a[k])
            } else {
                UnifiedConnection::Redis(b[k])
            },
    )
}

/// The URL a key-value store connection is opened with: the `host` field,
/// or the local default when none is given.
pub open spec fn spec_redis_url_of(c: DatabaseConfig) -> Seq<char> {
    match c.host {
        Some(h) => h@,
        None => "redis://localhost:6379"@,
    }
}

/// Whether `add_connection` accepts `c`.
pub open spec fn spec_add_accepts(c: DatabaseConfig) -> bool {
    match DatabaseType::spec_parse(c.db_type@) {
        None => false,
        Some(DatabaseType::Redis) => spec_valid_redis_url(spec_redis_url_of(c)),
        Some(t) => spec_connection_string(c, t) is Ok,
    }
}

/// The message of the `ConfigError` that `add_connection` reports for a
/// config it rejects.
pub open spec fn spec_add_error_message(c: DatabaseConfig) -> Seq<char> {
    match DatabaseType::spec_parse(c.db_type@) {
        None => "Unknown database type: "@ + c.db_type@,
        Some(DatabaseType::Redis) => "Invalid Redis URL format: "@ + spec_redis_url_of(c),
        Some(t) => spec_connection_string(c, t)->Err_0,
    }
}

/// What the stored connection looks like for an accepted config.
pub open spec fn connection_matches_config(conn: UnifiedConnection, c: DatabaseConfig) -> bool {
    match DatabaseType::spec_parse(c.db_type@) {
        None => false,
        Some(DatabaseType::Redis) => conn matches UnifiedConnection::Redis(rc) && rc.config.url@
            == spec_redis_url_of(c) && (match c.database {
            Some(d) => rc.config.db matches Some(v) && v as int == spec_parse_i64_or_zero(d@),
            None => rc.config.db is None,
        }),
        Some(t) => conn matches UnifiedConnection::Sqlx(sc) && sc.db_type == t && (
        spec_connection_string(c, t) matches Ok(s) && sc.connection_string@ == s),
    }
}

/// The registry of all live connections: SQL stores and key-value stores
/// under one id space. Ids are unique across both families.
pub struct UnifiedConnectionManager {
    sqlx_manager: DatabaseManager,
    redis_manager: RedisManager,
}

impl View for UnifiedConnectionManager {
    type V = Map<Seq<char>, UnifiedConnection>;

    closed spec fn view(&self) -> Map<Seq<char>, UnifiedConnection> {
        combined_view(self.sqlx_manager@, self.redis_manager@)
    }
}

impl UnifiedConnectionManager {
    #[verifier::type_invariant]
    spec fn wf(&self) -> bool {
        forall|k: Seq<char>|
            !(#[trigger] self.sqlx_manager@.contains_key(k) && self.redis_manager@.contains_key(k))
    }

    /// An empty registry.
    pub fn new() -> (m: Self)
        ensures
            m@ == Map::<Seq<char>, UnifiedConnection>::empty(),
    {
        let m = UnifiedConnectionManager {
            sqlx_manager: DatabaseManager::new(),
            redis_manager: RedisManager::new(),
        };
        proof {
            assert(m@ =~= Map::<Seq<char>, UnifiedConnection>::empty());
        }
        m
    }

    fn contains_id(&self, id: &String) -> (r: bool)
        ensures
            r == self@.contains_key(id@),
    {
        if self.sqlx_manager.get_connection(id.as_str()).is_some() {
            return true;
        }
        if self.redis_manager.get_connection(id.as_str()).is_some() {
            return true;
        }
        false
    }

    fn fresh_fallback_id(&self) -> (id: String)
        ensures
            !self@.contains_key(id@),
    {
        let ids_a = self.sqlx_manager.get_all_connection_ids();
        let ids_b = self.redis_manager.get_all_connection_ids();
        proof {
            reveal_strlit("x");
        }
        let mut fresh = String::from_str("x");
        let mut i: usize = 0;
        while i < ids_a.len()
            invariant
                i <= ids_a@.len(),
                forall|j: int| 0 <= j < i ==> (#[trigger] ids_a@[j])@.len() < fresh@.len(),
                "x"@.len() == 1,
            decreases ids_a@.len() - i,
        {
            let target = ids_a[i].as_str().unicode_len();
            while fresh.as_str().unicode_len() <= target
                invariant
                    target as nat == ids_a@[i as int]@.len(),
                    i < ids_a@.len(),
                    "x"@.len() == 1,
                    forall|j: int| 0 <= j < i ==> (#[trigger] ids_a@[j])@.len() < fresh@.len(),
                decreases target + 1 - fresh@.len(),
            {
                fresh.append("x");
            }
            i = i + 1;
        }
        let mut i2: usize = 0;
        while i2 < ids_b.len()
            invariant
                i2 <= ids_b@.len(),
                forall|j: int| 0 <= j < ids_a@.len() ==> (#[trigger] ids_a@[j])@.len() < fresh@.len(),
                forall|j: int| 0 <= j < i2 ==> (#[trigger] ids_b@[j])@.len() < fresh@.len(),
                "x"@.len() == 1,
            decreases ids_b@.len() - i2,
        {
            let target = ids_b[i2].as_str().unicode_len();
            while fresh.as_str().unicode_len() <= target
                invariant
                    target as nat == ids_b@[i2 as int]@.len(),
                    i2 < ids_b@.len(),
                    "x"@.len() == 1,
                    forall|j: int| 0 <= j < ids_a@.len() ==> (#[trigger] ids_a@[j])@.len()
                        < fresh@.len(),
                    forall|j: int| 0 <= j < i2 ==> (#[trigger] ids_b@[j])@.len() < fresh@.len(),
                decreases target + 1 - fresh@.len(),
            {
                fresh.append("x");
            }
            i2 = i2 + 1;
        }
        proof {
            use_type_invariant(&*self);
            assert forall|k: Seq<char>| #[trigger] self@.contains_key(k) implies k != fresh@ by {
                if self.sqlx_manager@.contains_key(k) {
                    let j = choose|j: int| 0 <= j < ids_a@.len() && #[trigger] ids_a@[j]@ == k;
                    assert(k.len() < fresh@.len());
                } else {
                    assert(self.redis_manager@.contains_key(k));
                    let j = choose|j: int| 0 <= j < ids_b@.len() && #[trigger] ids_b@[j]@ == k;
                    assert(k.len() < fresh@.len());
                }
            }
        }
        fresh
    }

    /// A fresh id for a new connection: the requested id when it is nonempty
    /// and not yet taken; a generated one otherwise.
    fn choose_fresh_id(&self, requested: &String) -> (id: String)
        ensures
            !self@.contains_key(id@),
            requested@.len() > 0 && !self@.contains_key(requested@) ==> id@ == requested@,
    {
        if requested.as_str().unicode_len() > 0 {
            if !self.contains_id(requested) {
                return requested.clone();
            }
        }
        let candidate = new_uuid_string();
        if !self.contains_id(&candidate) {
            return candidate;
        }
        self.fresh_fallback_id()
    }

    /// Validate `config`, record the connection and hand back its id: the
    /// explicitly supplied id when it is free, a generated one otherwise,
    /// never an id already in use. A config with an unknown kind, a missing
    /// required field or a malformed key-value URL is rejected unchanged.
    pub fn add_connection(&mut self, config: DatabaseConfig) -> (r: Result<String, MigrationError>)
        ensures
            r is Ok <==> spec_add_accepts(config),
            r matches Ok(id) ==> !old(self)@.contains_key(id@) && final(self)@.contains_key(id@)
                && connection_matches_config(final(self)@[id@], config) && final(self)@ == old(
                self,
            )@.insert(id@, final(self)@[id@]),
            r matches Ok(id) ==> (config.id@.len() > 0 && !old(self)@.contains_key(config.id@)
                ==> id@ == config.id@),
            r matches Err(e) ==> final(self)@ == old(self)@ && (e
                matches MigrationError::ConfigError(m) && m@ == spec_add_error_message(config)),
    {
        proof {
            use_type_invariant(&*self);
        }
        let db_type = match DatabaseType::from_str(config.db_type.as_str()) {
            Ok(t) => t,
            Err(e) => {
                return Err(e);
            },
        };
        let id = self.choose_fresh_id(&config.id);
        let ghost pre = self@;
        match db_type {
            DatabaseType::Sqlite | DatabaseType::MySql | DatabaseType::PostgreSql => {
                let conn = match SqlStoreConnection::new(&config) {
                    Ok(c) => c,
                    Err(e) => {
                        return Err(e);
                    },
                };
                let ghost conn_g = conn;
                let mut mgr = DatabaseManager::new();
                core::mem::swap(&mut mgr, &mut self.sqlx_manager);
                mgr.add_connection(id.clone(), conn);
                proof {
                    assert(!self.redis_manager@.contains_key(id@));
                }
                core::mem::swap(&mut mgr, &mut self.sqlx_manager);
                proof {
                    assert(self@ =~= pre.insert(id@, UnifiedConnection::Sqlx(conn_g)));
                }
                Ok(id)
            },
            DatabaseType::Redis => {
                let url = match &config.host {
                    Some(h) => h.clone(),
                    None => String::from_str("redis://localhost:6379"),
                };
                let db = match &config.database {
                    Some(d) => Some(parse_i64_or_zero(d.as_str())),
                    None => None,
                };
                let conn = match RedisConnectionManager::new(RedisConfig { url, db }) {
                    Ok(c) => c,
                    Err(e) => {
                        return Err(e);
                    },
                };
                let ghost conn_g = conn;
                let mut mgr = RedisManager::new();
                core::mem::swap(&mut mgr, &mut self.redis_manager);
                mgr.add_connection(id.clone(), conn);
                proof {
                    assert(!self.sqlx_manager@.contains_key(id@));
                }
                core::mem::swap(&mut mgr, &mut self.redis_manager);
                proof {
                    assert(self@ =~= pre.insert(id@, UnifiedConnection::Redis(conn_g)));
                }
                Ok(id)
            },
        }
    }

    /// Look the connection under `id` up, as an owned value.
    pub fn get_connection(&self, id: &str) -> (r: Option<UnifiedConnection>)
        ensures
            match r {
                Some(c) => self@.contains_key(id@) && c == self@[id@],
                None => !self@.contains_key(id@),
            },
    {
        proof {
            use_type_invariant(&*self);
        }
        match self.sqlx_manager.get_connection(id) {
            Some(c) => Some(UnifiedConnection::Sqlx(c.exact_clone())),
            None => match self.redis_manager.get_connection(id) {
                Some(c) => Some(UnifiedConnection::Redis(c.exact_clone())),
                None => None,
            },
        }
    }

    /// Detach the connection under `id`; an unknown id is a
    /// `ConnectionNotFound`, reported with the registry unchanged.
    pub fn remove_connection(&mut self, id: &str) -> (r: Result<(), MigrationError>)
        ensures
            r is Ok <==> old(self)@.contains_key(id@),
            r is Ok ==> final(self)@ == old(self)@.remove(id@),
            r matches Err(e) ==> final(self)@ == old(self)@ && (e
                matches MigrationError::ConnectionNotFound(m) && m@ == "Connection not found"@),
    {
        proof {
            use_type_invariant(&*self);
        }
        let ghost pre = self@;
        let mut mgr = DatabaseManager::new();
        core::mem::swap(&mut mgr, &mut self.sqlx_manager);
        let removed_sql = mgr.remove_connection(id);
        core::mem::swap(&mut mgr, &mut self.sqlx_manager);
        if removed_sql.is_some() {
            proof {
                assert(self@ =~= pre.remove(id@));
            }
            return Ok(());
        }
        let mut rmgr = RedisManager::new();
        core::mem::swap(&mut rmgr, &mut self.redis_manager);
        let removed_redis = rmgr.remove_connection(id);
        core::mem::swap(&mut rmgr, &mut self.redis_manager);
        if removed_redis.is_some() {
            proof {
                assert(self@ =~= pre.remove(id@));
            }
            return Ok(());
        }
        proof {
            assert(self@ =~= pre);
        }
        Err(not_found_error())
    }

    /// Probe the connection under `id`; an unknown id is a
    /// `ConnectionNotFound`. The registry is never changed.
    pub fn test_connection(&self, id: &str) -> (r: Result<(), MigrationError>)
        ensures
            r is Ok <==> self@.contains_key(id@),
            r matches Err(e) ==> e matches MigrationError::ConnectionNotFound(m) && m@
                == "Connection not found"@,
    {
        match self.get_connection(id) {
            Some(conn) => conn.test_connection(),
            None => Err(not_found_error()),
        }
    }

    /// The ids of all live connections, each exactly once.
    pub fn get_all_connection_ids(&self) -> (r: Vec<String>)
        ensures
            forall|i: int| 0 <= i < r@.len() ==> self@.contains_key(#[trigger] r@[i]@),
            forall|k: Seq<char>|
                self@.contains_key(k) ==> exists|i: int| 0 <= i < r@.len() && #[trigger] r@[i]@ == k,
            forall|i: int, j: int| 0 <= i < j < r@.len() ==> r@[i]@ != r@[j]@,
    {
        proof {
            use_type_invariant(&*self);
        }
        let mut r = self.sqlx_manager.get_all_connection_ids();
        let mut more = self.redis_manager.get_all_connection_ids();
        let ghost ra = r@;
        let ghost rb = more@;
        r.append(&mut more);
        proof {
            assert forall|k: Seq<char>| self@.contains_key(k) implies exists|i: int|
                0 <= i < r@.len() && #[trigger] r@[i]@ == k by {
                if self.sqlx_manager@.contains_key(k) {
                    let i = choose|i: int| 0 <= i < ra.len() && #[trigger] ra[i]@ == k;
                    assert(r@[i]@ == k);
                } else {
                    let i = choose|i: int| 0 <= i < rb.len() && #[trigger] rb[i]@ == k;
                    assert(r@[ra.len() + i]@ == k);
                }
            }
        }
        r
    }

    /// The backend kind of the connection under `id`.
    pub fn get_connection_type(&self, id: &str) -> (r: Option<DatabaseType>)
        ensures
            match r {
                Some(t) => self@.contains_key(id@) && t == self@[id@].spec_type(),
                None => !self@.contains_key(id@),
            },
    {
        match self.get_connection(id) {
            Some(conn) => Some(conn.get_type()),
            None => None,
        }
    }

    /// The SQL-store connection under `id`, if that id names one.
    pub fn get_sqlx_connection(&self, id: &str) -> (r: Option<SqlStoreConnection>)
        ensures
            match r {
                Some(c) => self@.contains_key(id@) && self@[id@] == UnifiedConnection::Sqlx(c),
                None => !self@.contains_key(id@) || !(self@[id@] is Sqlx),
            },
    {
        proof {
            use_type_invariant(&*self);
        }
        match self.sqlx_manager.get_connection(id) {
            Some(c) => Some(c.exact_clone()),
            None => None,
        }
    }

    /// The key-value store connection under `id`, if that id names one.
    pub fn get_redis_connection(&self, id: &str) -> (r: Option<RedisConnectionManager>)
        ensures
            match r {
                Some(c) => self@.contains_key(id@) && self@[id@] == UnifiedConnection::Redis(c),
                None => !self@.contains_key(id@) || !(self@[id@] is Redis),
            },
    {
        proof {
            use_type_invariant(&*self);
        }
        match self.redis_manager.get_connection(id) {
            Some(c) => Some(c.exact_clone()),
            None => None,
        }
    }
}

/// Law: a connection stored under a fresh id is found under exactly that id
/// afterwards, so `get_connection` and `test_connection` on the id handed
/// back by a successful `add_connection` succeed.
pub proof fn lemma_added_connection_found(
    m: Map<Seq<char>, UnifiedConnection>,
    id: Seq<char>,
    c: UnifiedConnection,
)
    ensures
        m.insert(id, c).contains_key(id),
        m.insert(id, c)[id] == c,
{
}

/// Law: two successful `add_connection` calls, whatever their configs, hand
/// out distinct ids — the second id is fresh for a registry that already
/// holds the first.
pub proof fn lemma_added_ids_distinct(
    m0: Map<Seq<char>, UnifiedConnection>,
    id1: Seq<char>,
    c1: UnifiedConnection,
    id2: Seq<char>,
)
    requires
        !m0.contains_key(id1),
        !m0.insert(id1, c1).contains_key(id2),
    ensures
        id1 != id2,
{
}

} // verus!
