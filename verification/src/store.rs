//! The SQLite store: where its file lives, and the schema migrations that
//! bring a database up to date. Creating directories and opening the file are
//! left to the program around the library.

use crate::outside::{db_execute_batch, db_execute_with_i32, db_query_i32, joined, path_join};
use vstd::prelude::*;

verus! {

/// How many migrations the schema has.
pub const MIGRATION_COUNT: usize = 1usize;

/// The table that records which migrations a database has had.
pub open spec fn version_table_sql() -> Seq<char> {
    "CREATE TABLE IF NOT EXISTS schema_version (
            version INTEGER PRIMARY KEY,
            applied_at TEXT DEFAULT (datetime('now'))
        )"@
}

/// The query of the latest migration a database has had (0 for none).
pub open spec fn version_query_sql() -> Seq<char> {
    "SELECT COALESCE(MAX(version), 0) FROM schema_version"@
}

/// The statement that records a migration as applied; the version is bound
/// to its parameter.
pub open spec fn record_version_sql() -> Seq<char> {
    "INSERT INTO schema_version (version) VALUES (?1)"@
}

/// See [`version_table_sql`].
fn schema_version_table() -> (res: &'static str)
    ensures
        res@ == version_table_sql(),
{
    "CREATE TABLE IF NOT EXISTS schema_version (
            version INTEGER PRIMARY KEY,
            applied_at TEXT DEFAULT (datetime('now'))
        )"
}

/// See [`version_query_sql`].
fn current_version_query() -> (res: &'static str)
    ensures
        res@ == version_query_sql(),
{
    "SELECT COALESCE(MAX(version), 0) FROM schema_version"
}

/// See [`record_version_sql`].
fn record_version_statement() -> (res: &'static str)
    ensures
        res@ == record_version_sql(),
{
    "INSERT INTO schema_version (version) VALUES (?1)"
}

/// The SQL of the first migration: the adapters, tasks, fan-out groups,
/// tool calls, token usage, permission audit and MCP connection log tables,
/// with their indexes.
pub open spec fn initial_schema() -> Seq<char> {
    r#"
    CREATE TABLE IF NOT EXISTS adapters (
        id TEXT PRIMARY KEY,
        alias TEXT,
        transport_type TEXT NOT NULL,
        transport_config TEXT NOT NULL,
        default_model TEXT,
        timeout_ms INTEGER DEFAULT 300000,
        created_at TEXT DEFAULT (datetime('now')),
        last_seen TEXT
    );

    CREATE TABLE IF NOT EXISTS tasks (
        id TEXT PRIMARY KEY,
        agent_id TEXT NOT NULL REFERENCES adapters(id),
        fan_out_group_id TEXT,
        prompt_preview TEXT NOT NULL,
        prompt_full TEXT NOT NULL,
        status TEXT NOT NULL DEFAULT 'queued',
        model TEXT,
        priority INTEGER DEFAULT 0,
        progress REAL DEFAULT 0.0,
        result_json TEXT,
        error TEXT,
        created_at TEXT DEFAULT (datetime('now')),
        started_at TEXT,
        completed_at TEXT
    );

    CREATE INDEX IF NOT EXISTS idx_tasks_agent ON tasks(agent_id);
    CREATE INDEX IF NOT EXISTS idx_tasks_status ON tasks(status);
    CREATE INDEX IF NOT EXISTS idx_tasks_fanout ON tasks(fan_out_group_id);

    CREATE TABLE IF NOT EXISTS fan_out_groups (
        id TEXT PRIMARY KEY,
        prompt TEXT NOT NULL,
        strategy TEXT NOT NULL,
        merged_result_json TEXT,
        created_at TEXT DEFAULT (datetime('now')),
        completed_at TEXT
    );

    CREATE TABLE IF NOT EXISTS tool_calls (
        id INTEGER PRIMARY KEY AUTOINCREMENT,
        task_id TEXT REFERENCES tasks(id),
        agent_id TEXT NOT NULL,
        tool_name TEXT NOT NULL,
        arguments_json TEXT,
        result_summary TEXT,
        status TEXT,
        started_at TEXT DEFAULT (datetime('now')),
        duration_ms INTEGER
    );

    CREATE INDEX IF NOT EXISTS idx_tool_calls_task ON tool_calls(task_id);
    CREATE INDEX IF NOT EXISTS idx_tool_calls_agent ON tool_calls(agent_id);

    CREATE TABLE IF NOT EXISTS token_usage (
        id INTEGER PRIMARY KEY AUTOINCREMENT,
        agent_id TEXT NOT NULL,
        task_id TEXT,
        model TEXT NOT NULL,
        input_tokens INTEGER NOT NULL,
        output_tokens INTEGER NOT NULL,
        cache_write_tokens INTEGER DEFAULT 0,
        cache_read_tokens INTEGER DEFAULT 0,
        recorded_at TEXT DEFAULT (datetime('now'))
    );

    CREATE INDEX IF NOT EXISTS idx_token_usage_agent ON token_usage(agent_id);
    CREATE INDEX IF NOT EXISTS idx_token_usage_time ON token_usage(recorded_at);

    CREATE TABLE IF NOT EXISTS permission_audit (
        id INTEGER PRIMARY KEY AUTOINCREMENT,
        agent_id TEXT NOT NULL,
        tool_name TEXT NOT NULL,
        old_permit TEXT,
        new_permit TEXT NOT NULL,
        reason TEXT,
        changed_at TEXT DEFAULT (datetime('now'))
    );

    CREATE TABLE IF NOT EXISTS mcp_connection_log (
        id INTEGER PRIMARY KEY AUTOINCREMENT,
        agent_id TEXT NOT NULL,
        server_name TEXT NOT NULL,
        event TEXT NOT NULL,
        error TEXT,
        recorded_at TEXT DEFAULT (datetime('now'))
    );

    CREATE TABLE IF NOT EXISTS bands (
        id TEXT PRIMARY KEY,
        name TEXT NOT NULL UNIQUE,
        isolation_level TEXT NOT NULL,
        config_json TEXT NOT NULL,
        status TEXT DEFAULT 'active',
        created_at TEXT DEFAULT (datetime('now')),
        destroyed_at TEXT
    );

    CREATE TABLE IF NOT EXISTS schema_version (
        version INTEGER PRIMARY KEY,
        applied_at TEXT DEFAULT (datetime('now'))
    );
    "#@
}

/// The SQL of the first migration, as [`initial_schema`] gives it.
fn initial_schema_sql() -> (res: &'static str)
    ensures
        res@ == initial_schema(),
{
    r#"
    CREATE TABLE IF NOT EXISTS adapters (
        id TEXT PRIMARY KEY,
        alias TEXT,
        transport_type TEXT NOT NULL,
        transport_config TEXT NOT NULL,
        default_model TEXT,
        timeout_ms INTEGER DEFAULT 300000,
        created_at TEXT DEFAULT (datetime('now')),
        last_seen TEXT
    );

    CREATE TABLE IF NOT EXISTS tasks (
        id TEXT PRIMARY KEY,
        agent_id TEXT NOT NULL REFERENCES adapters(id),
        fan_out_group_id TEXT,
        prompt_preview TEXT NOT NULL,
        prompt_full TEXT NOT NULL,
        status TEXT NOT NULL DEFAULT 'queued',
        model TEXT,
        priority INTEGER DEFAULT 0,
        progress REAL DEFAULT 0.0,
        result_json TEXT,
        error TEXT,
        created_at TEXT DEFAULT (datetime('now')),
        started_at TEXT,
        completed_at TEXT
    );

    CREATE INDEX IF NOT EXISTS idx_tasks_agent ON tasks(agent_id);
    CREATE INDEX IF NOT EXISTS idx_tasks_status ON tasks(status);
    CREATE INDEX IF NOT EXISTS idx_tasks_fanout ON tasks(fan_out_group_id);

    CREATE TABLE IF NOT EXISTS fan_out_groups (
        id TEXT PRIMARY KEY,
        prompt TEXT NOT NULL,
        strategy TEXT NOT NULL,
        merged_result_json TEXT,
        created_at TEXT DEFAULT (datetime('now')),
        completed_at TEXT
    );

    CREATE TABLE IF NOT EXISTS tool_calls (
        id INTEGER PRIMARY KEY AUTOINCREMENT,
        task_id TEXT REFERENCES tasks(id),
        agent_id TEXT NOT NULL,
        tool_name TEXT NOT NULL,
        arguments_json TEXT,
        result_summary TEXT,
        status TEXT,
        started_at TEXT DEFAULT (datetime('now')),
        duration_ms INTEGER
    );

    CREATE INDEX IF NOT EXISTS idx_tool_calls_task ON tool_calls(task_id);
    CREATE INDEX IF NOT EXISTS idx_tool_calls_agent ON tool_calls(agent_id);

    CREATE TABLE IF NOT EXISTS token_usage (
        id INTEGER PRIMARY KEY AUTOINCREMENT,
        agent_id TEXT NOT NULL,
        task_id TEXT,
        model TEXT NOT NULL,
        input_tokens INTEGER NOT NULL,
        output_tokens INTEGER NOT NULL,
        cache_write_tokens INTEGER DEFAULT 0,
        cache_read_tokens INTEGER DEFAULT 0,
        recorded_at TEXT DEFAULT (datetime('now'))
    );

    CREATE INDEX IF NOT EXISTS idx_token_usage_agent ON token_usage(agent_id);
    CREATE INDEX IF NOT EXISTS idx_token_usage_time ON token_usage(recorded_at);

    CREATE TABLE IF NOT EXISTS permission_audit (
        id INTEGER PRIMARY KEY AUTOINCREMENT,
        agent_id TEXT NOT NULL,
        tool_name TEXT NOT NULL,
        old_permit TEXT,
        new_permit TEXT NOT NULL,
        reason TEXT,
        changed_at TEXT DEFAULT (datetime('now'))
    );

    CREATE TABLE IF NOT EXISTS mcp_connection_log (
        id INTEGER PRIMARY KEY AUTOINCREMENT,
        agent_id TEXT NOT NULL,
        server_name TEXT NOT NULL,
        event TEXT NOT NULL,
        error TEXT,
        recorded_at TEXT DEFAULT (datetime('now'))
    );

    CREATE TABLE IF NOT EXISTS bands (
        id TEXT PRIMARY KEY,
        name TEXT NOT NULL UNIQUE,
        isolation_level TEXT NOT NULL,
        config_json TEXT NOT NULL,
        status TEXT DEFAULT 'active',
        created_at TEXT DEFAULT (datetime('now')),
        destroyed_at TEXT
    );

    CREATE TABLE IF NOT EXISTS schema_version (
        version INTEGER PRIMARY KEY,
        applied_at TEXT DEFAULT (datetime('now'))
    );
    "#
}

/// The migrations, in order: migration `i + 1` is the `i`-th.
pub fn migrations() -> (res: Vec<&'static str>)
    ensures
        res@.len() == MIGRATION_COUNT,
        res@[0]@ == initial_schema(),
{
    let mut all: Vec<&'static str> = Vec::new();
    all.push(initial_schema_sql());
    all
}

/// The migrations a database at version `current` still needs, out of the
/// first `count`: those numbered above `current`, in increasing order.
pub open spec fn pending_versions(current: int, count: nat) -> Seq<i32>
    decreases count,
{
    if count == 0 {
        Seq::empty()
    } else {
        let before = pending_versions(current, (count - 1) as nat);
        if count > current {
            before.push(count as i32)
        } else {
            before
        }
    }
}

/// The migrations a database at version `current` still needs, out of the
/// first `count`; see [`pending_versions`].
pub fn pending_migrations(current: i32, count: usize) -> (res: Vec<i32>)
    requires
        count <= i32::MAX,
    ensures
        res@ == pending_versions(current as int, count as nat),
{
    let mut res: Vec<i32> = Vec::new();
    let mut n: usize = 0;
    while n < count
        invariant
            n <= count <= i32::MAX,
            res@ == pending_versions(current as int, n as nat),
        decreases count - n,
    {
        let version = (n + 1) as i32;
        if version > current {
            res.push(version);
        }
        n = n + 1;
    }
    res
}

/// A failure of the store, with the database's message.
#[derive(Debug)]
pub struct StoreError {
    pub message: String,
}

/// The SQL of each migration, in order: migration `v` is the `(v - 1)`-th.
pub open spec fn migration_texts() -> Seq<Seq<char>> {
    seq![initial_schema()]
}

/// The statements that apply the migrations `versions` in order: each
/// migration's SQL, then the statement that records its version.
pub open spec fn applying(versions: Seq<i32>) -> Seq<(Seq<char>, Option<i32>)>
    decreases versions.len(),
{
    if versions.len() == 0 {
        Seq::empty()
    } else {
        let v = versions.last();
        applying(versions.drop_last()) + seq![
            (migration_texts()[v - 1], None::<i32>),
            (record_version_sql(), Some(v)),
        ]
    }
}

/// Every statement that brings a database at version `current` up to date,
/// in order: the version table, the version query, then each pending
/// migration followed by the record of its version.
pub open spec fn migration_statements(current: int) -> Seq<(Seq<char>, Option<i32>)> {
    seq![(version_table_sql(), None::<i32>), (version_query_sql(), None::<i32>)] + applying(
        pending_versions(current, MIGRATION_COUNT as nat),
    )
}

/// A statement handed to the database, and how it went: its SQL, the
/// version bound to its parameter (if any), whether it succeeded, and the
/// value it read (for a query that succeeded).
pub struct Issued {
    pub sql: Seq<char>,
    pub bound: Option<i32>,
    pub succeeded: bool,
    pub read: Option<i32>,
}

/// The SQL of an issued statement, with the version bound to it.
pub open spec fn statement_of(s: Issued) -> (Seq<char>, Option<i32>) {
    (s.sql, s.bound)
}

/// The version a version query reports: the value it read, or 0 when it
/// failed.
pub open spec fn version_read(query: Issued) -> int {
    match query.read {
        Some(v) => v as int,
        None => 0,
    }
}

/// What a migration run handed to the database, and how it ended. It first
/// makes sure the version table exists; if that fails, it stops there with
/// an error. Otherwise it queries the version (a failed query counts as
/// version 0), then hands over, in order, the statements of
/// [`migration_statements`] for that version: each pending migration's SQL,
/// then the record of its version. It goes on while they succeed: it ends
/// with an error right after the first one that fails, and succeeds, giving
/// the pending versions, when all of them did.
pub open spec fn migration_run(run: Seq<Issued>, res: Result<Vec<i32>, StoreError>) -> bool {
    if run.len() == 0 {
        false
    } else if !run[0].succeeded {
        &&& run.len() == 1
        &&& statement_of(run[0]) == (version_table_sql(), None::<i32>)
        &&& res is Err
    } else {
        let current = version_read(run[1]);
        let all = migration_statements(current);
        &&& 2 <= run.len() <= all.len()
        &&& forall|j: int| 0 <= j < run.len() ==> #[trigger] statement_of(run[j]) == all[j]
        &&& forall|j: int| 2 <= j < run.len() - 1 ==> #[trigger] run[j].succeeded
        &&& match res {
            Ok(applied) => {
                &&& run.len() == all.len()
                &&& run.len() > 2 ==> run.last().succeeded
                &&& applied@ == pending_versions(current, MIGRATION_COUNT as nat)
            },
            Err(_) => run.len() > 2 && !run.last().succeeded,
        }
    }
}

/// A connection to a SQLite database, with the record of the statements
/// handed to it and how each went.
pub struct Database<'a> {
    conn: &'a rusqlite::Connection,
    issued: Ghost<Seq<Issued>>,
}

impl<'a> Database<'a> {
    /// The connection, with nothing handed to it yet.
    pub fn new(conn: &'a rusqlite::Connection) -> (res: Database<'a>)
        ensures
            res.issued() == Seq::<Issued>::empty(),
    {
        Database { conn, issued: Ghost(Seq::empty()) }
    }

    /// The statements handed to the database so far, in order, and how each
    /// went.
    pub closed spec fn issued(&self) -> Seq<Issued> {
        self.issued@
    }

    /// Runs the statements of `sql` in turn.
    pub fn execute_batch(&mut self, sql: &str) -> (res: Result<(), String>)
        ensures
            final(self).issued() == old(self).issued().push(
                Issued { sql: sql@, bound: None, succeeded: res is Ok, read: None },
            ),
    {
        let res = db_execute_batch(self.conn, sql);
        proof {
            self.issued@ = self.issued@.push(Issued { sql: sql@, bound: None, succeeded: res is Ok, read: None });
        }
        res
    }

    /// Reads the first column of the only row of the query `sql`.
    pub fn query_i32(&mut self, sql: &str) -> (res: Result<i32, String>)
        ensures
            final(self).issued() == old(self).issued().push(
                Issued {
                    sql: sql@,
                    bound: None,
                    succeeded: res is Ok,
                    read: match res {
                        Ok(v) => Some(v),
                        Err(_) => None,
                    },
                },
            ),
    {
        let res = db_query_i32(self.conn, sql);
        proof {
            let read = match res {
                Ok(v) => Some(v),
                Err(_) => None,
            };
            self.issued@ = self.issued@.push(Issued { sql: sql@, bound: None, succeeded: res is Ok, read });
        }
        res
    }

    /// Runs the statement `sql` with `value` bound to its parameter.
    pub fn execute_with_i32(&mut self, sql: &str, value: i32) -> (res: Result<(), String>)
        ensures
            final(self).issued() == old(self).issued().push(
                Issued { sql: sql@, bound: Some(value), succeeded: res is Ok, read: None },
            ),
    {
        let res = db_execute_with_i32(self.conn, sql, value);
        proof {
            self.issued@ = self.issued@.push(
                Issued { sql: sql@, bound: Some(value), succeeded: res is Ok, read: None },
            );
        }
        res
    }
}

/// The statements applying the first `k` of some versions are the first
/// `2 * k` of those applying all of them.
proof fn lemma_applying_prefix(versions: Seq<i32>, k: int)
    requires
        0 <= k <= versions.len(),
    ensures
        applying(versions).len() == 2 * versions.len(),
        applying(versions.take(k)) == applying(versions).take(2 * k),
    decreases versions.len(),
{
    if versions.len() > 0 {
        let rest = versions.drop_last();
        lemma_applying_prefix(rest, if k < versions.len() { k } else { 0 });
        if k < versions.len() {
            assert(versions.take(k) =~= rest.take(k));
            assert(applying(versions).take(2 * k) =~= applying(rest).take(2 * k));
        } else {
            assert(versions.take(k) =~= versions);
            assert(applying(versions).take(2 * k) =~= applying(versions));
        }
    } else {
        assert(versions.take(k) =~= versions);
        assert(applying(versions).take(2 * k) =~= applying(versions));
    }
}

/// The two statements that apply the `i`-th of some versions: its SQL,
/// then the record of its version.
proof fn lemma_statement_at(plan: Seq<i32>, i: int)
    requires
        0 <= i < plan.len(),
    ensures
        applying(plan).len() == 2 * plan.len(),
        applying(plan)[2 * i] == (migration_texts()[plan[i] - 1], None::<i32>),
        applying(plan)[2 * i + 1] == (record_version_sql(), Some(plan[i])),
{
    lemma_applying_prefix(plan, i);
    lemma_applying_prefix(plan, i + 1);
    assert(plan.take(i + 1).drop_last() =~= plan.take(i));
    let done = applying(plan.take(i));
    let s1 = (migration_texts()[plan[i] - 1], None::<i32>);
    let s2 = (record_version_sql(), Some(plan[i]));
    assert(applying(plan.take(i + 1)) == done + seq![s1, s2]);
    let a = applying(plan);
    assert(a.take(2 * i + 2)[2 * i] == s1);
    assert(a.take(2 * i + 2)[2 * i + 1] == s2);
}

/// Brings the database up to date: makes sure the version table exists,
/// reads the latest migration it has had (a failed read counts as none),
/// then applies each migration it lacks, in order, recording each. Gives the
/// versions applied. The first failing statement stops it with the
/// database's message. What it hands to the database, and how that decides
/// its result, is [`migration_run`].
pub fn apply_migrations(db: &mut Database) -> (res: Result<Vec<i32>, StoreError>)
    ensures
        exists|run: Seq<Issued>| final(db).issued() == old(db).issued() + run && #[trigger] migration_run(run, res),
{
    let ghost before = db.issued();
    match db.execute_batch(schema_version_table()) {
        Ok(()) => {},
        Err(message) => {
            let res = Err(StoreError { message });
            let ghost run = db.issued().subrange(before.len() as int, db.issued().len() as int);
            assert(db.issued() =~= before + run);
            assert(migration_run(run, res));
            return res;
        },
    }
    let current: i32 = match db.query_i32(current_version_query()) {
        Ok(v) => v,
        Err(_) => 0,
    };
    let all = migrations();
    let plan = pending_migrations(current, all.len());
    let ghost head = seq![(version_table_sql(), None::<i32>), (version_query_sql(), None::<i32>)];
    let ghost stmts = migration_statements(current as int);
    let ghost mut run = db.issued().subrange(before.len() as int, db.issued().len() as int);
    assert(db.issued() =~= before + run);
    assert(version_read(run[1]) == current);
    assert(statement_of(run[0]) == stmts[0] && statement_of(run[1]) == stmts[1]);
    let mut i: usize = 0;
    while i < plan.len()
        invariant
            i <= plan@.len(),
            all@.len() == MIGRATION_COUNT,
            all@[0]@ == initial_schema(),
            plan@ == pending_versions(current as int, MIGRATION_COUNT as nat),
            head == seq![(version_table_sql(), None::<i32>), (version_query_sql(), None::<i32>)],
            stmts == head + applying(plan@),
            stmts == migration_statements(current as int),
            before == old(db).issued(),
            db.issued() == before + run,
            run.len() == 2 + 2 * i,
            run[0].succeeded,
            version_read(run[1]) == current,
            forall|j: int| 0 <= j < run.len() ==> #[trigger] statement_of(run[j]) == stmts[j],
            forall|j: int| 2 <= j < run.len() ==> #[trigger] run[j].succeeded,
        decreases plan@.len() - i,
    {
        let version = plan[i];
        proof {
            lemma_pending_in_range(current as int, MIGRATION_COUNT as nat, i as int);
            lemma_statement_at(plan@, i as int);
            assert(stmts[2 + 2 * i] == applying(plan@)[2 * i]);
            assert(stmts[2 + 2 * i + 1] == applying(plan@)[2 * i + 1]);
        }
        let sql = all[(version - 1) as usize];
        assert(sql@ == migration_texts()[version - 1]);
        let ok_sql = db.execute_batch(sql);
        proof {
            let r = run;
            run = run.push(db.issued().last());
            assert(db.issued() =~= before + run);
            assert forall|j: int| 0 <= j < run.len() implies #[trigger] statement_of(run[j]) == stmts[j] by {
                if j < r.len() {
                    assert(run[j] == r[j]);
                }
            }
        }
        match ok_sql {
            Ok(()) => {},
            Err(message) => {
                let res = Err(StoreError { message });
                proof {
                    assert(run[0] == run.first());
                    assert forall|j: int| 2 <= j < run.len() - 1 implies #[trigger] run[j].succeeded by {}
                    assert(migration_run(run, res));
                }
                return res;
            },
        }
        let ok_record = db.execute_with_i32(record_version_statement(), version);
        proof {
            let r = run;
            run = run.push(db.issued().last());
            assert(db.issued() =~= before + run);
            assert forall|j: int| 0 <= j < run.len() implies #[trigger] statement_of(run[j]) == stmts[j] by {
                if j < r.len() {
                    assert(run[j] == r[j]);
                }
            }
        }
        match ok_record {
            Ok(()) => {},
            Err(message) => {
                let res = Err(StoreError { message });
                proof {
                    assert forall|j: int| 2 <= j < run.len() - 1 implies #[trigger] run[j].succeeded by {}
                    assert(migration_run(run, res));
                }
                return res;
            },
        }
        i = i + 1;
    }
    proof {
        lemma_applying_prefix(plan@, 0);
    }
    let res = Ok(plan);
    assert(migration_run(run, res));
    res
}

/// Brings a database up to date: [`apply_migrations`] on a fresh
/// [`Database`] of the connection.
pub fn run_migrations(conn: &rusqlite::Connection) -> (res: Result<Vec<i32>, StoreError>)
    ensures
        exists|run: Seq<Issued>| #[trigger] migration_run(run, res),
{
    let mut db = Database::new(conn);
    let res = apply_migrations(&mut db);
    proof {
        let run = choose|run: Seq<Issued>| db.issued() == Seq::<Issued>::empty() + run && #[trigger] migration_run(run, res);
        assert(migration_run(run, res));
    }
    res
}

/// Every pending version names one of the migrations.
proof fn lemma_pending_in_range(current: int, count: nat, i: int)
    requires
        0 <= i < pending_versions(current, count).len(),
        count <= i32::MAX,
    ensures
        1 <= pending_versions(current, count)[i] <= count,
    decreases count,
{
    if count > 0 {
        let before = pending_versions(current, (count - 1) as nat);
        if i < before.len() {
            lemma_pending_in_range(current, (count - 1) as nat, i);
        }
    }
}

/// Where the database lives: the `AISH_DB_PATH` variable when it is set,
/// else `data/aish.db` under `AISH_BAND_ROOT` when that is set, else
/// `aish/aish.db` under the platform's data directory (or under `.` when
/// there is none).
pub open spec fn spec_db_path_for(
    db_env: Option<Seq<char>>,
    band_root: Option<Seq<char>>,
    data_dir: Option<Seq<char>>,
) -> Seq<char> {
    match db_env {
        Some(p) => p,
        None => match band_root {
            Some(r) => joined(joined(r, "data"@), "aish.db"@),
            None => joined(
                joined(
                    match data_dir {
                        Some(d) => d,
                        None => "."@,
                    },
                    "aish"@,
                ),
                "aish.db"@,
            ),
        },
    }
}

/// Where the database lives, given `AISH_DB_PATH`, `AISH_BAND_ROOT` and the
/// platform's data directory, each when there is one; see
/// [`spec_db_path_for`].
pub fn db_path_for(db_env: Option<&str>, band_root: Option<&str>, data_dir: Option<&str>) -> (res: String)
    ensures
        res@ == spec_db_path_for(db_env.deep_view(), band_root.deep_view(), data_dir.deep_view()),
{
    match db_env {
        Some(p) => String::from_str(p),
        None => match band_root {
            Some(r) => {
                let data = path_join(r, "data");
                path_join(data.as_str(), "aish.db")
            },
            None => {
                let base = match data_dir {
                    Some(d) => path_join(d, "aish"),
                    None => path_join(".", "aish"),
                };
                path_join(base.as_str(), "aish.db")
            },
        },
    }
}

} // verus!

verus! {

/// The migrations a database still needs come in increasing order, each
/// above its version and at most `count`; the last is `count` itself. So a
/// database that has had them is at version `count`, and running the
/// migrations again applies nothing.
pub proof fn lemma_migrations_idempotent(current: int, count: nat)
    requires
        count <= i32::MAX,
    ensures
        forall|i: int|
            0 <= i < pending_versions(current, count).len() ==> current < #[trigger] pending_versions(
                current,
                count,
            )[i] <= count,
        forall|i: int, j: int|
            0 <= i < j < pending_versions(current, count).len() ==> #[trigger] pending_versions(current, count)[i]
                < #[trigger] pending_versions(current, count)[j],
        pending_versions(current, count).len() > 0 ==> pending_versions(current, count).last() == count,
        0 < count && current < count ==> pending_versions(current, count).len() > 0,
        pending_versions(count as int, count).len() == 0,
    decreases count,
{
    if count > 0 {
        lemma_migrations_idempotent(current, (count - 1) as nat);
        let before = pending_versions(current, (count - 1) as nat);
        let all = pending_versions(current, count);
        assert(all.len() > before.len() ==> all[all.len() - 1] == count);
        if current < count {
            assert(all == before.push(count as i32));
        }
        assert forall|i: int| 0 <= i < before.len() implies #[trigger] all[i] == before[i] by {}
    }
    lemma_nothing_pending(count as int, count);
}

/// A database at or above version `count` needs none of the first `count`
/// migrations.
proof fn lemma_nothing_pending(current: int, count: nat)
    requires
        current >= count,
    ensures
        pending_versions(current, count).len() == 0,
    decreases count,
{
    if count > 0 {
        lemma_nothing_pending(current, (count - 1) as nat);
    }
}

} // verus!
