//! Migration strategies: the algorithm variants a task can carry.
//!
//! Every variant resolves both connection ids through the registry and checks
//! that the connections are live; the byte-level transfer itself is the
//! extension point left to an implementation and is not performed here.

use vstd::prelude::*;
use vstd::string::StringExecFns;
use vstd::string::StrSliceExecFns;
use crate::connection::{UnifiedConnection, UnifiedConnectionManager};
use crate::errors::MigrationError;
use crate::string_map::ExactClone;
use crate::text::{append_u64_decimal, str_eq, spec_u64_string};

verus! {

/// How many `?` placeholders a statement template holds.
pub open spec fn spec_placeholder_count(t: Seq<char>) -> nat
    decreases t.len(),
{
    if t.len() == 0 {
        0
    } else {
        spec_placeholder_count(t.drop_last()) + (if t.last() == '?' {
            1nat
        } else {
            0nat
        })
    }
}

/// The template with each `?`, in order, replaced by the corresponding
/// value (meaningful when the placeholder count equals the number of
/// values).
pub open spec fn spec_render(t: Seq<char>, vals: Seq<Seq<char>>) -> Seq<char>
    decreases t.len(),
{
    if t.len() == 0 {
        Seq::empty()
    } else if t.first() == '?' {
        vals.first() + spec_render(t.drop_first(), vals.drop_first())
    } else {
        seq![t.first()] + spec_render(t.drop_first(), vals)
    }
}

proof fn lemma_placeholder_count_concat(a: Seq<char>, b: Seq<char>)
    ensures
        spec_placeholder_count(a + b) == spec_placeholder_count(a) + spec_placeholder_count(b),
    decreases b.len(),
{
    if b.len() == 0 {
        assert(a + b =~= a);
    } else {
        lemma_placeholder_count_concat(a, b.drop_last());
        assert((a + b).drop_last() =~= a + b.drop_last());
        assert((a + b).last() == b.last());
    }
}

/// Count the `?` placeholders of a statement template.
pub fn placeholder_count(template: &str) -> (r: usize)
    ensures
        r as nat == spec_placeholder_count(template@),
{
    let n = template.unicode_len();
    let mut r: usize = 0;
    let mut i: usize = 0;
    while i < n
        invariant
            i <= n,
            n as nat == template@.len(),
            r <= i,
            r as nat == spec_placeholder_count(template@.take(i as int)),
        decreases n - i,
    {
        proof {
            assert(template@.take(i + 1).drop_last() =~= template@.take(i as int));
            assert(template@.take(i + 1).last() == template@[i as int]);
        }
        if template.get_char(i) == '?' {
            r = r + 1;
        }
        i = i + 1;
    }
    proof {
        assert(template@.take(n as int) =~= template@);
    }
    r
}

/// Render a statement template against one row of values, substituting the
/// `k`-th `?` by the `k`-th value; a template whose placeholder count does
/// not match the row arity is rejected before anything is rendered.
pub fn render_sql_template(template: &str, values: &Vec<String>) -> (r: Result<
    String,
    MigrationError,
>)
    ensures
        spec_placeholder_count(template@) == values@.len() ==> (r matches Ok(s) && s@
            == spec_render(template@, values@.map_values(|v: String| v@))),
        spec_placeholder_count(template@) != values@.len() ==> (r matches Err(e) && (e
            matches MigrationError::ConfigError(m) && m@ == "Template placeholder count "@
            + spec_u64_string(spec_placeholder_count(template@) as int)
            + " does not match row arity "@ + spec_u64_string(values@.len() as int))),
{
    let ghost vs = values@.map_values(|v: String| v@);
    let count = placeholder_count(template);
    if count != values.len() {
        let mut m = String::from_str("Template placeholder count ");
        append_u64_decimal(&mut m, count as u64);
        m.append(" does not match row arity ");
        append_u64_decimal(&mut m, values.len() as u64);
        return Err(MigrationError::ConfigError(m));
    }
    let n = template.unicode_len();
    let mut out = String::new();
    let mut k: usize = 0;
    let mut i: usize = 0;
    proof {
        assert(template@.skip(0) =~= template@);
        assert(vs.skip(0) =~= vs);
        assert(out@ + spec_render(template@, vs) =~= spec_render(template@, vs));
    }
    while i < n
        invariant
            i <= n,
            n as nat == template@.len(),
            vs == values@.map_values(|v: String| v@),
            vs.len() == values@.len(),
            vs.len() <= usize::MAX,
            spec_placeholder_count(template@) == vs.len(),
            k as nat == spec_placeholder_count(template@.take(i as int)),
            k <= vs.len(),
            spec_render(template@, vs) == out@ + spec_render(
                template@.skip(i as int),
                vs.skip(k as int),
            ),
        decreases n - i,
    {
        let ghost t = template@;
        proof {
            assert(t.take(i + 1).drop_last() =~= t.take(i as int));
            assert(t.take(i + 1).last() == t[i as int]);
            assert(t.skip(i as int).len() > 0);
            assert(t.skip(i as int).first() == t[i as int]);
            assert(t.skip(i as int).drop_first() =~= t.skip(i + 1));
        }
        let c = template.get_char(i);
        if c == '?' {
            proof {
                assert(t =~= t.take(i + 1) + t.skip(i + 1));
                lemma_placeholder_count_concat(t.take(i + 1), t.skip(i + 1));
                assert(spec_placeholder_count(t.take(i + 1)) == k + 1);
                assert(k < vs.len());
                assert(vs.skip(k as int).len() > 0);
                assert(vs.skip(k as int).first() == vs[k as int]);
                assert(vs.skip(k as int).drop_first() =~= vs.skip(k + 1));
                assert(vs[k as int] == values@[k as int]@);
                assert(spec_render(t.skip(i as int), vs.skip(k as int)) == vs[k as int]
                    + spec_render(t.skip(i + 1), vs.skip(k + 1)));
            }
            out.append(values[k].as_str());
            k = k + 1;
            proof {
                assert(spec_render(t, vs) =~= out@ + spec_render(
                    t.skip(i + 1),
                    vs.skip(k as int),
                ));
            }
        } else {
            proof {
                assert(spec_render(t.skip(i as int), vs.skip(k as int)) == seq![t[i as int]]
                    + spec_render(t.skip(i + 1), vs.skip(k as int)));
            }
            let piece = template.substring_char(i, i + 1);
            proof {
                assert(piece@ =~= seq![t[i as int]]);
            }
            out.append(piece);
            proof {
                assert(spec_render(t, vs) =~= out@ + spec_render(
                    t.skip(i + 1),
                    vs.skip(k as int),
                ));
            }
        }
        i = i + 1;
    }
    proof {
        assert(template@.skip(n as int) =~= Seq::<char>::empty());
        assert(spec_render(template@, vs) =~= out@);
    }
    Ok(out)
}

/// How every strategy answers a request to run between `source` and
/// `target` against the registry `m`: it succeeds exactly when both ids
/// resolve (a registered connection answers its probe), and names the first
/// id that does not resolve otherwise.
pub open spec fn execute_result_matches(
    m: Map<Seq<char>, UnifiedConnection>,
    source: Seq<char>,
    target: Seq<char>,
    r: Result<(), MigrationError>,
) -> bool {
    &&& r is Ok <==> (m.contains_key(source) && m.contains_key(target))
    &&& !m.contains_key(source) ==> (r matches Err(e) && (e
        matches MigrationError::ConnectionNotFound(msg) && msg@
        == "Source database connection not found: "@ + source))
    &&& m.contains_key(source) && !m.contains_key(target) ==> (r matches Err(e) && (e
        matches MigrationError::ConnectionNotFound(msg) && msg@
        == "Target database connection not found: "@ + target))
}

/// The message of the error `execute` reports when a strategy cannot run.
pub open spec fn spec_execute_error_message(
    m: Map<Seq<char>, UnifiedConnection>,
    source: Seq<char>,
    target: Seq<char>,
) -> Seq<char> {
    if !m.contains_key(source) {
        "Source database connection not found: "@ + source
    } else {
        "Target database connection not found: "@ + target
    }
}

fn connectivity_check(
    source_db_id: &str,
    target_db_id: &str,
    conn_manager: &UnifiedConnectionManager,
) -> (r: Result<(), MigrationError>)
    ensures
        execute_result_matches(conn_manager@, source_db_id@, target_db_id@, r),
{
    let source_conn = match conn_manager.get_connection(source_db_id) {
        Some(c) => c,
        None => {
            let mut m = String::from_str("Source database connection not found: ");
            m.append(source_db_id);
            return Err(MigrationError::ConnectionNotFound(m));
        },
    };
    let target_conn = match conn_manager.get_connection(target_db_id) {
        Some(c) => c,
        None => {
            let mut m = String::from_str("Target database connection not found: ");
            m.append(target_db_id);
            return Err(MigrationError::ConnectionNotFound(m));
        },
    };
    match source_conn.test_connection() {
        Ok(_) => (),
        Err(e) => {
            return Err(e);
        },
    }
    match target_conn.test_connection() {
        Ok(_) => (),
        Err(e) => {
            return Err(e);
        },
    }
    Ok(())
}

/// Copies the whole dataset from the source to the target.
#[derive(Debug)]
pub struct FullMigrationStrategy {
    pub name: String,
}

impl FullMigrationStrategy {
    pub fn new() -> (s: Self)
        ensures
            s.name@ == "Full Migration"@,
    {
        FullMigrationStrategy { name: String::from_str("Full Migration") }
    }

    pub fn get_name(&self) -> (r: &str)
        ensures
            r@ == self.name@,
    {
        self.name.as_str()
    }

    /// Resolve both ids and probe both connections; the dataset copy itself
    /// is the extension point and is not performed here.
    pub fn execute(
        &self,
        source_db_id: &str,
        target_db_id: &str,
        conn_manager: &UnifiedConnectionManager,
    ) -> (r: Result<(), MigrationError>)
        ensures
            execute_result_matches(conn_manager@, source_db_id@, target_db_id@, r),
    {
        connectivity_check(source_db_id, target_db_id, conn_manager)
    }
}

impl ExactClone for FullMigrationStrategy {
    fn exact_clone(&self) -> (r: Self) {
        FullMigrationStrategy { name: self.name.clone() }
    }
}

/// Transfers only the records newer than the stored checkpoint.
#[derive(Debug)]
pub struct IncrementalMigrationStrategy {
    pub name: String,
    pub last_migration_id: Option<String>,
}

impl IncrementalMigrationStrategy {
    pub fn new(last_migration_id: Option<String>) -> (s: Self)
        ensures
            s.name@ == "Incremental Migration"@,
            s.last_migration_id == last_migration_id,
    {
        IncrementalMigrationStrategy {
            name: String::from_str("Incremental Migration"),
            last_migration_id,
        }
    }

    pub fn get_name(&self) -> (r: &str)
        ensures
            r@ == self.name@,
    {
        self.name.as_str()
    }

    /// The checkpoint the next run would resume from.
    pub fn last_migration_id(&self) -> (r: &Option<String>)
        ensures
            r == &self.last_migration_id,
    {
        &self.last_migration_id
    }

    /// Resolve both ids and probe both connections; the checkpointed
    /// transfer itself is the extension point and is not performed here.
    pub fn execute(
        &self,
        source_db_id: &str,
        target_db_id: &str,
        conn_manager: &UnifiedConnectionManager,
    ) -> (r: Result<(), MigrationError>)
        ensures
            execute_result_matches(conn_manager@, source_db_id@, target_db_id@, r),
    {
        connectivity_check(source_db_id, target_db_id, conn_manager)
    }
}

impl ExactClone for IncrementalMigrationStrategy {
    fn exact_clone(&self) -> (r: Self) {
        IncrementalMigrationStrategy {
            name: self.name.clone(),
            last_migration_id: match &self.last_migration_id {
                Some(s) => Some(s.clone()),
                None => None,
            },
        }
    }
}

/// Runs an operator-supplied query on the source and renders a target
/// statement from each result row.
#[derive(Debug)]
pub struct CustomSQLMigrationStrategy {
    pub name: String,
    pub source_sql: String,
    pub target_sql_template: String,
}

impl CustomSQLMigrationStrategy {
    pub fn new(name: String, source_sql: String, target_sql_template: String) -> (s: Self)
        ensures
            s.name == name,
            s.source_sql == source_sql,
            s.target_sql_template == target_sql_template,
    {
        CustomSQLMigrationStrategy { name, source_sql, target_sql_template }
    }

    pub fn get_name(&self) -> (r: &str)
        ensures
            r@ == self.name@,
    {
        self.name.as_str()
    }

    /// The operator-supplied query to run against the source.
    pub fn source_sql(&self) -> (r: &str)
        ensures
            r@ == self.source_sql@,
    {
        self.source_sql.as_str()
    }

    /// The statement template rendered once per source row.
    pub fn target_sql_template(&self) -> (r: &str)
        ensures
            r@ == self.target_sql_template@,
    {
        self.target_sql_template.as_str()
    }

    /// Render the target statement for one row of source values; a row
    /// whose arity does not match the template's placeholder count is
    /// rejected before anything is rendered.
    pub fn render_target_sql(&self, row: &Vec<String>) -> (r: Result<String, MigrationError>)
        ensures
            spec_placeholder_count(self.target_sql_template@) == row@.len() ==> (r matches Ok(s)
                && s@ == spec_render(self.target_sql_template@, row@.map_values(|v: String| v@))),
            spec_placeholder_count(self.target_sql_template@) != row@.len() ==> (r matches Err(e)
                && (e matches MigrationError::ConfigError(m) && m@
                == "Template placeholder count "@ + spec_u64_string(
                spec_placeholder_count(self.target_sql_template@) as int,
            ) + " does not match row arity "@ + spec_u64_string(row@.len() as int))),
    {
        render_sql_template(self.target_sql_template.as_str(), row)
    }

    /// Resolve both ids and probe both connections; running the operator's
    /// queries is the extension point and is not performed here.
    pub fn execute(
        &self,
        source_db_id: &str,
        target_db_id: &str,
        conn_manager: &UnifiedConnectionManager,
    ) -> (r: Result<(), MigrationError>)
        ensures
            execute_result_matches(conn_manager@, source_db_id@, target_db_id@, r),
    {
        connectivity_check(source_db_id, target_db_id, conn_manager)
    }
}

impl ExactClone for CustomSQLMigrationStrategy {
    fn exact_clone(&self) -> (r: Self) {
        CustomSQLMigrationStrategy {
            name: self.name.clone(),
            source_sql: self.source_sql.clone(),
            target_sql_template: self.target_sql_template.clone(),
        }
    }
}

/// The closed set of strategy variants a task can own.
#[derive(Debug)]
pub enum MigrationStrategyEnum {
    Full(FullMigrationStrategy),
    Incremental(IncrementalMigrationStrategy),
    CustomSQL(CustomSQLMigrationStrategy),
}

impl MigrationStrategyEnum {
    /// The display name of the variant.
    pub open spec fn spec_name(&self) -> Seq<char> {
        match self {
            MigrationStrategyEnum::Full(s) => s.name@,
            MigrationStrategyEnum::Incremental(s) => s.name@,
            MigrationStrategyEnum::CustomSQL(s) => s.name@,
        }
    }

    pub fn get_name(&self) -> (r: &str)
        ensures
            r@ == self.spec_name(),
    {
        match self {
            MigrationStrategyEnum::Full(s) => s.get_name(),
            MigrationStrategyEnum::Incremental(s) => s.get_name(),
            MigrationStrategyEnum::CustomSQL(s) => s.get_name(),
        }
    }

    /// Run the variant between `source_db_id` and `target_db_id` against
    /// the registry: every variant first resolves both ids and probes both
    /// connections, and fails with `ConnectionNotFound` naming the first id
    /// that does not resolve.
    pub fn execute(
        &self,
        source_db_id: &str,
        target_db_id: &str,
        conn_manager: &UnifiedConnectionManager,
    ) -> (r: Result<(), MigrationError>)
        ensures
            execute_result_matches(conn_manager@, source_db_id@, target_db_id@, r),
    {
        match self {
            MigrationStrategyEnum::Full(s) => s.execute(source_db_id, target_db_id, conn_manager),
            MigrationStrategyEnum::Incremental(s) => s.execute(
                source_db_id,
                target_db_id,
                conn_manager,
            ),
            MigrationStrategyEnum::CustomSQL(s) => s.execute(
                source_db_id,
                target_db_id,
                conn_manager,
            ),
        }
    }
}

/// Build the strategy a task was asked for. `name` is the task's name,
/// which a custom-SQL strategy carries as its own; the checkpoint and the
/// two queries come from the operator's parameters. An unknown strategy
/// type and a custom-SQL request without its queries are `ConfigError`s.
pub fn strategy_from_type(
    strategy_type: &str,
    name: &str,
    last_migration_id: Option<String>,
    source_sql: Option<String>,
    target_sql_template: Option<String>,
) -> (r: Result<MigrationStrategyEnum, MigrationError>)
    ensures
        strategy_type@ == "full"@ ==> (r matches Ok(s) && (s
            matches MigrationStrategyEnum::Full(f) && f.name@ == "Full Migration"@)),
        strategy_type@ == "incremental"@ ==> (r matches Ok(s) && (s
            matches MigrationStrategyEnum::Incremental(i) && i.name@ == "Incremental Migration"@
            && i.last_migration_id == last_migration_id)),
        strategy_type@ == "custom_sql"@ ==> match (source_sql, target_sql_template) {
            (Some(src), Some(tpl)) => r matches Ok(s) && (s
                matches MigrationStrategyEnum::CustomSQL(c) && c.name@ == name@ && c.source_sql
                == src && c.target_sql_template == tpl),
            (None, _) => r matches Err(e) && (e matches MigrationError::ConfigError(m) && m@
                == "Missing source_sql parameter"@),
            (Some(_), None) => r matches Err(e) && (e matches MigrationError::ConfigError(m) && m@
                == "Missing target_sql_template parameter"@),
        },
        !(strategy_type@ == "full"@ || strategy_type@ == "incremental"@ || strategy_type@
            == "custom_sql"@) ==> (r matches Err(e) && (e matches MigrationError::ConfigError(m)
            && m@ == "Unknown strategy type: "@ + strategy_type@)),
{
    proof {
        reveal_strlit("full");
        reveal_strlit("incremental");
        reveal_strlit("custom_sql");
        assert("full"@.len() == 4);
        assert("incremental"@.len() == 11);
        assert("custom_sql"@.len() == 10);
        assert("full"@ != "incremental"@);
        assert("full"@ != "custom_sql"@);
        assert("incremental"@ != "custom_sql"@);
    }
    if str_eq(strategy_type, "full") {
        Ok(MigrationStrategyEnum::Full(FullMigrationStrategy::new()))
    } else if str_eq(strategy_type, "incremental") {
        Ok(MigrationStrategyEnum::Incremental(IncrementalMigrationStrategy::new(
            last_migration_id,
        )))
    } else if str_eq(strategy_type, "custom_sql") {
        let src = match source_sql {
            Some(s) => s,
            None => {
                return Err(MigrationError::ConfigError(
                    String::from_str("Missing source_sql parameter"),
                ));
            },
        };
        let tpl = match target_sql_template {
            Some(t) => t,
            None => {
                return Err(MigrationError::ConfigError(
                    String::from_str("Missing target_sql_template parameter"),
                ));
            },
        };
        Ok(MigrationStrategyEnum::CustomSQL(CustomSQLMigrationStrategy::new(
            name.to_owned(),
            src,
            tpl,
        )))
    } else {
        let mut m = String::from_str("Unknown strategy type: ");
        m.append(strategy_type);
        Err(MigrationError::ConfigError(m))
    }
}

impl ExactClone for MigrationStrategyEnum {
    fn exact_clone(&self) -> (r: Self) {
        match self {
            MigrationStrategyEnum::Full(s) => MigrationStrategyEnum::Full(s.exact_clone()),
            MigrationStrategyEnum::Incremental(s) => MigrationStrategyEnum::Incremental(
                s.exact_clone(),
            ),
            MigrationStrategyEnum::CustomSQL(s) => MigrationStrategyEnum::CustomSQL(
                s.exact_clone(),
            ),
        }
    }
}

} // verus!
