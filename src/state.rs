//! The persistent store of repositories, worktrees, tags and events, kept in
//! an embedded SQLite file whose schema is migrated on open.
use vstd::prelude::*;

use crate::text::{append_str, i64_to_decimal, u64_to_decimal};

verus! {

#[verifier::external_type_specification]
#[verifier::external_body]
pub struct ExConnection(rusqlite::Connection);

#[verifier::external_type_specification]
#[verifier::external_body]
pub struct ExSqliteError(rusqlite::Error);

#[verifier::external_type_specification]
#[verifier::external_body]
pub struct ExMigrationError(rusqlite_migration::Error);

#[verifier::external_type_specification]
#[verifier::external_body]
pub struct ExSqliteValue(rusqlite::types::Value);

/// The schema, in migration order.
pub const SCHEMA_V1: &'static str = "
CREATE TABLE repos (
    id INTEGER PRIMARY KEY AUTOINCREMENT,
    name TEXT NOT NULL,
    path TEXT NOT NULL UNIQUE,
    default_base TEXT,
    created_at INTEGER NOT NULL
);
CREATE TABLE worktrees (
    id INTEGER PRIMARY KEY AUTOINCREMENT,
    repo_id INTEGER NOT NULL REFERENCES repos(id),
    name TEXT NOT NULL,
    branch TEXT NOT NULL,
    path TEXT NOT NULL UNIQUE,
    base_branch TEXT,
    managed INTEGER NOT NULL DEFAULT 1,
    adopted_at INTEGER,
    last_accessed INTEGER,
    removed_at INTEGER,
    created_at INTEGER NOT NULL
);
CREATE TABLE events (
    id INTEGER PRIMARY KEY AUTOINCREMENT,
    repo_id INTEGER NOT NULL REFERENCES repos(id),
    worktree_id INTEGER REFERENCES worktrees(id),
    event_type TEXT NOT NULL,
    payload TEXT,
    created_at INTEGER NOT NULL
);
CREATE TABLE tags (
    worktree_id INTEGER NOT NULL REFERENCES worktrees(id),
    name TEXT NOT NULL,
    PRIMARY KEY (worktree_id, name)
);
CREATE TABLE session (
    key TEXT PRIMARY KEY,
    value TEXT NOT NULL
);
CREATE TABLE logs (
    id INTEGER PRIMARY KEY AUTOINCREMENT,
    worktree_id INTEGER REFERENCES worktrees(id),
    line TEXT NOT NULL,
    created_at INTEGER NOT NULL
);
";

pub const PRAGMAS: &'static str = "PRAGMA journal_mode = WAL;
PRAGMA foreign_keys = ON;
PRAGMA synchronous = NORMAL;";

/// A value passed to or read from SQLite.
#[derive(Debug, PartialEq)]
pub enum SqlValue {
    Null,
    Integer(i64),
    Text(String),
    /// A real number or a blob, which this store never writes.
    Other,
}

/// How a migration run ended, when it did not succeed.
pub enum MigrationFailure {
    /// The file's schema is newer than every migration known here.
    TooFarAhead,
    Failed(rusqlite_migration::Error),
}

/// Relies on `rusqlite::Connection::open`: opens, or creates, the database file.
#[verifier::external_body]
fn open_connection(path: &str) -> Result<rusqlite::Connection, rusqlite::Error> {
    rusqlite::Connection::open(path)
}

/// Relies on `rusqlite::Connection::open_in_memory`.
#[verifier::external_body]
fn open_memory_connection() -> Result<rusqlite::Connection, rusqlite::Error> {
    rusqlite::Connection::open_in_memory()
}

/// Relies on `rusqlite::Connection::execute_batch`: runs statements that take no parameter.
#[verifier::external_body]
fn execute_batch(conn: &rusqlite::Connection, sql: &str) -> Result<(), rusqlite::Error> {
    conn.execute_batch(sql)
}

/// Relies on `rusqlite_migration::Migrations::to_latest` for a single
/// migration: applies it unless the recorded schema version is already there,
/// and fails with `DatabaseTooFarAhead` when that version is higher.
#[verifier::external_body]
fn migrate_to_latest(conn: &mut rusqlite::Connection, schema: &str) -> Result<(), MigrationFailure> {
    let migrations = rusqlite_migration::Migrations::new(vec![rusqlite_migration::M::up(schema)]);
    migrations.to_latest(conn).map_err(|e| match e {
        rusqlite_migration::Error::MigrationDefinition(
            rusqlite_migration::MigrationDefinitionError::DatabaseTooFarAhead,
        ) => MigrationFailure::TooFarAhead,
        other => MigrationFailure::Failed(other),
    })
}

/// Relies on `rusqlite::types::Value`: the SQLite value of each parameter
/// (integer, text or null).
#[verifier::external_body]
fn sql_values(params: &Vec<SqlValue>) -> Vec<rusqlite::types::Value> {
    params.iter().map(|p| match p {
        SqlValue::Integer(i) => rusqlite::types::Value::Integer(*i),
        SqlValue::Text(s) => rusqlite::types::Value::Text(s.clone()),
        SqlValue::Null | SqlValue::Other => rusqlite::types::Value::Null,
    }).collect()
}

/// Relies on `rusqlite::Connection::execute`: runs one statement with
/// positional parameters and returns the number of rows it changed.
#[verifier::external_body]
fn execute(conn: &rusqlite::Connection, sql: &str, params: &Vec<SqlValue>) -> Result<usize, rusqlite::Error> {
    let values = sql_values(params);
    conn.execute(sql, rusqlite::params_from_iter(values))
}

/// Relies on `rusqlite::Connection::last_insert_rowid`: the id of the row that
/// the last successful insert created.
#[verifier::external_body]
fn last_insert_rowid(conn: &rusqlite::Connection) -> i64 {
    conn.last_insert_rowid()
}

/// Relies on `rusqlite::Statement::query_map`: the rows of a query, each as
/// its first `columns` values.
#[verifier::external_body]
fn query_rows(conn: &rusqlite::Connection, sql: &str, params: &Vec<SqlValue>, columns: usize) -> (r: Result<Vec<Vec<SqlValue>>, rusqlite::Error>)
    ensures
        r matches Ok(rows) ==> forall|i: int| 0 <= i < rows@.len() ==> (#[trigger] rows@[i])@.len() == columns,
{
    let values = sql_values(params);
    let mut stmt = conn.prepare(sql)?;
    let rows = stmt.query_map(rusqlite::params_from_iter(values), |row| {
        (0..columns).map(|i| row.get::<usize, rusqlite::types::Value>(i).map(|v| match v {
            rusqlite::types::Value::Null => SqlValue::Null,
            rusqlite::types::Value::Integer(n) => SqlValue::Integer(n),
            rusqlite::types::Value::Text(s) => SqlValue::Text(s),
            _ => SqlValue::Other,
        })).collect::<Result<Vec<SqlValue>, rusqlite::Error>>()
    })?;
    rows.collect()
}

/// Relies on `std::time::SystemTime::now`: seconds since the UNIX epoch (zero
/// for a clock set before it).
#[verifier::external_body]
pub fn unix_epoch_secs() -> u64 {
    std::time::SystemTime::now().duration_since(std::time::UNIX_EPOCH).map(|d| d.as_secs()).unwrap_or(0)
}

/// The current time as stored in `created_at` columns.
pub fn now() -> (r: i64)
    ensures
        r >= 0,
{
    let secs = unix_epoch_secs();
    if secs > i64::MAX as u64 { i64::MAX } else { secs as i64 }
}

/// A repository tracked by the store.
#[derive(Debug, Clone)]
pub struct Repo {
    pub id: i64,
    pub name: String,
    pub path: String,
    pub default_base: Option<String>,
    pub created_at: i64,
}

/// A worktree tracked by the store.
#[derive(Debug, Clone)]
pub struct Worktree {
    pub id: i64,
    pub repo_id: i64,
    pub name: String,
    pub branch: String,
    pub path: String,
    pub base_branch: Option<String>,
    pub managed: bool,
    pub adopted_at: Option<i64>,
    pub last_accessed: Option<i64>,
    pub removed_at: Option<i64>,
    pub created_at: i64,
}

/// A partial update of a worktree. For a nullable column, `None` leaves it,
/// `Some(None)` sets it to null and `Some(Some(v))` sets it to `v`; for
/// `managed`, `None` leaves it and `Some(v)` sets it. A removal mark, once
/// set, is kept.
#[derive(Debug, Default)]
pub struct WorktreeUpdate {
    pub last_accessed: Option<Option<i64>>,
    pub adopted_at: Option<Option<i64>>,
    pub managed: Option<bool>,
    pub base_branch: Option<Option<String>>,
    pub removed_at: Option<Option<i64>>,
}

/// Errors of the store.
#[derive(Debug)]
pub enum StoreError {
    Sqlite(rusqlite::Error),
    Migration(rusqlite_migration::Error),
    /// The file's schema is newer than this build knows.
    TooFarAhead,
    /// No worktree has this id.
    NotFound { id: i64 },
    /// The worktree of an event belongs to another repository.
    WorktreeRepoMismatch { repo_id: i64, worktree_id: i64 },
    /// A row did not have the shape of its table.
    BadRow,
}

/// `text` is the one-line description of `e`.
pub open spec fn describes_store_error(e: StoreError, text: Seq<char>) -> bool {
    match e {
        StoreError::Sqlite(_) => text == "database error"@,
        StoreError::Migration(_) => text == "failed to run database migrations"@,
        StoreError::TooFarAhead => text == "database schema is newer than this build"@,
        StoreError::NotFound { id } => text == "worktree with id "@ + crate::text::signed_decimal(id as int) + " not found"@,
        StoreError::WorktreeRepoMismatch { repo_id, worktree_id } => text == "worktree "@ + crate::text::signed_decimal(
            worktree_id as int,
        ) + " does not belong to repo "@ + crate::text::signed_decimal(repo_id as int),
        StoreError::BadRow => text == "unexpected row shape"@,
    }
}

impl StoreError {
    /// A one-line description of the error.
    pub fn message(&self) -> (r: String)
        ensures
            describes_store_error(*self, r@),
    {
        let mut s = String::new();
        match self {
            StoreError::Sqlite(_) => append_str(&mut s, "database error"),
            StoreError::Migration(_) => append_str(&mut s, "failed to run database migrations"),
            StoreError::TooFarAhead => append_str(&mut s, "database schema is newer than this build"),
            StoreError::NotFound { id } => {
                append_str(&mut s, "worktree with id ");
                let d = i64_to_decimal(*id);
                append_str(&mut s, d.as_str());
                append_str(&mut s, " not found");
            },
            StoreError::WorktreeRepoMismatch { repo_id, worktree_id } => {
                append_str(&mut s, "worktree ");
                let w = i64_to_decimal(*worktree_id);
                append_str(&mut s, w.as_str());
                append_str(&mut s, " does not belong to repo ");
                let r = i64_to_decimal(*repo_id);
                append_str(&mut s, r.as_str());
            },
            StoreError::BadRow => append_str(&mut s, "unexpected row shape"),
        }
        s
    }
}

/// The text of an optional string as a parameter.
pub open spec fn text_param(o: Option<String>) -> SqlValue {
    match o {
        Some(s) => SqlValue::Text(s),
        None => SqlValue::Null,
    }
}

/// An optional integer as a parameter.
pub open spec fn int_param(o: Option<i64>) -> SqlValue {
    match o {
        Some(v) => SqlValue::Integer(v),
        None => SqlValue::Null,
    }
}

fn text_value(o: Option<&str>) -> (r: SqlValue)
    ensures
        match o {
            Some(s) => r matches SqlValue::Text(t) && t@ == s@,
            None => r == SqlValue::Null,
        },
{
    match o {
        Some(s) => SqlValue::Text(String::from_str(s)),
        None => SqlValue::Null,
    }
}

fn int_value(o: Option<i64>) -> (r: SqlValue)
    ensures
        r == int_param(o),
{
    match o {
        Some(v) => SqlValue::Integer(v),
        None => SqlValue::Null,
    }
}

/// A nullable text column.
pub open spec fn opt_text_col(v: SqlValue) -> Option<Option<String>> {
    match v {
        SqlValue::Null => Some(None),
        SqlValue::Text(s) => Some(Some(s)),
        _ => None,
    }
}

/// A nullable integer column.
pub open spec fn opt_int_col(v: SqlValue) -> Option<Option<i64>> {
    match v {
        SqlValue::Null => Some(None),
        SqlValue::Integer(n) => Some(Some(n)),
        _ => None,
    }
}

/// A repository read from a row of `id, name, path, default_base, created_at`.
pub open spec fn decode_repo(row: Seq<SqlValue>) -> Option<Repo> {
    if row.len() == 5 && row[0] is Integer && row[1] is Text && row[2] is Text && opt_text_col(row[3]) is Some
        && row[4] is Integer {
        Some(
            Repo {
                id: row[0]->Integer_0,
                name: row[1]->Text_0,
                path: row[2]->Text_0,
                default_base: opt_text_col(row[3])->Some_0,
                created_at: row[4]->Integer_0,
            },
        )
    } else {
        None
    }
}

/// A worktree read from a row of its eleven columns, in `WORKTREE_COLUMNS` order.
pub open spec fn decode_worktree(row: Seq<SqlValue>) -> Option<Worktree> {
    if row.len() == 11 && row[0] is Integer && row[1] is Integer && row[2] is Text && row[3] is Text
        && row[4] is Text && opt_text_col(row[5]) is Some && row[6] is Integer && opt_int_col(row[7]) is Some
        && opt_int_col(row[8]) is Some && opt_int_col(row[9]) is Some && row[10] is Integer {
        Some(
            Worktree {
                id: row[0]->Integer_0,
                repo_id: row[1]->Integer_0,
                name: row[2]->Text_0,
                branch: row[3]->Text_0,
                path: row[4]->Text_0,
                base_branch: opt_text_col(row[5])->Some_0,
                managed: row[6]->Integer_0 != 0,
                adopted_at: opt_int_col(row[7])->Some_0,
                last_accessed: opt_int_col(row[8])->Some_0,
                removed_at: opt_int_col(row[9])->Some_0,
                created_at: row[10]->Integer_0,
            },
        )
    } else {
        None
    }
}

fn int_col(v: &SqlValue) -> (r: Option<i64>)
    ensures
        match r {
            Some(n) => *v == SqlValue::Integer(n),
            None => !(v is Integer),
        },
{
    match v {
        SqlValue::Integer(n) => Some(*n),
        _ => None,
    }
}

fn text_col(v: &SqlValue) -> (r: Option<String>)
    ensures
        match r {
            Some(s) => *v == SqlValue::Text(s),
            None => !(v is Text),
        },
{
    match v {
        SqlValue::Text(s) => Some(s.clone()),
        _ => None,
    }
}

fn nullable_text_col(v: &SqlValue) -> (r: Option<Option<String>>)
    ensures
        r == opt_text_col(*v),
{
    match v {
        SqlValue::Null => Some(None),
        SqlValue::Text(s) => Some(Some(s.clone())),
        _ => None,
    }
}

fn nullable_int_col(v: &SqlValue) -> (r: Option<Option<i64>>)
    ensures
        r == opt_int_col(*v),
{
    match v {
        SqlValue::Null => Some(None),
        SqlValue::Integer(n) => Some(Some(*n)),
        _ => None,
    }
}

/// The repository in a row, if the row has the shape of one.
pub fn repo_from_row(row: &Vec<SqlValue>) -> (r: Option<Repo>)
    ensures
        r == decode_repo(row@),
{
    if row.len() != 5 {
        return None;
    }
    let id = int_col(&row[0]);
    let name = text_col(&row[1]);
    let path = text_col(&row[2]);
    let default_base = nullable_text_col(&row[3]);
    let created_at = int_col(&row[4]);
    match (id, name, path, default_base, created_at) {
        (Some(id), Some(name), Some(path), Some(default_base), Some(created_at)) => Some(
            Repo { id, name, path, default_base, created_at },
        ),
        _ => None,
    }
}

/// The worktree in a row, if the row has the shape of one.
pub fn worktree_from_row(row: &Vec<SqlValue>) -> (r: Option<Worktree>)
    ensures
        r == decode_worktree(row@),
{
    if row.len() != 11 {
        return None;
    }
    let id = int_col(&row[0]);
    let repo_id = int_col(&row[1]);
    let name = text_col(&row[2]);
    let branch = text_col(&row[3]);
    let path = text_col(&row[4]);
    let base_branch = nullable_text_col(&row[5]);
    let managed = int_col(&row[6]);
    let adopted_at = nullable_int_col(&row[7]);
    let last_accessed = nullable_int_col(&row[8]);
    let removed_at = nullable_int_col(&row[9]);
    let created_at = int_col(&row[10]);
    match (id, repo_id, name, branch, path) {
        (Some(id), Some(repo_id), Some(name), Some(branch), Some(path)) => match (
            base_branch,
            managed,
            adopted_at,
            last_accessed,
            removed_at,
        ) {
            (Some(base_branch), Some(managed), Some(adopted_at), Some(last_accessed), Some(removed_at)) => {
                match created_at {
                    Some(created_at) => Some(
                        Worktree {
                            id,
                            repo_id,
                            name,
                            branch,
                            path,
                            base_branch,
                            managed: managed != 0,
                            adopted_at,
                            last_accessed,
                            removed_at,
                            created_at,
                        },
                    ),
                    None => None,
                }
            },
            _ => None,
        },
        _ => None,
    }
}

/// The assignments that an update writes, as column clause and value, in
/// column order: last access, adoption, managed flag, base branch, removal.
pub open spec fn update_clauses(u: WorktreeUpdate) -> Seq<(Seq<char>, SqlValue)> {
    (match u.last_accessed {
        Some(v) => seq![("last_accessed = ?"@, int_param(v))],
        None => Seq::empty(),
    }) + (match u.adopted_at {
        Some(v) => seq![("adopted_at = ?"@, int_param(v))],
        None => Seq::empty(),
    }) + (match u.managed {
        Some(b) => seq![("managed = ?"@, SqlValue::Integer(if b { 1 } else { 0 }))],
        None => Seq::empty(),
    }) + (match u.base_branch {
        Some(v) => seq![("base_branch = ?"@, text_param(v))],
        None => Seq::empty(),
    }) + (match u.removed_at {
        Some(v) => seq![("removed_at = COALESCE(removed_at, ?)"@, int_param(v))],
        None => Seq::empty(),
    })
}

/// The update that marks a worktree removed at `ts`, changing nothing else.
pub fn removal_update(ts: i64) -> (r: WorktreeUpdate)
    ensures
        r.removed_at == Some(Some(ts)),
        r.last_accessed is None && r.adopted_at is None && r.managed is None && r.base_branch is None,
{
    WorktreeUpdate { last_accessed: None, adopted_at: None, managed: None, base_branch: None, removed_at: Some(Some(ts)) }
}

/// The update that records an access at `ts`, changing nothing else.
pub fn access_update(ts: i64) -> (r: WorktreeUpdate)
    ensures
        r.last_accessed == Some(Some(ts)),
        r.removed_at is None && r.adopted_at is None && r.managed is None && r.base_branch is None,
{
    WorktreeUpdate { last_accessed: Some(Some(ts)), adopted_at: None, managed: None, base_branch: None, removed_at: None }
}

/// The update changes at least one column.
pub open spec fn has_changes(u: WorktreeUpdate) -> bool {
    u.last_accessed is Some || u.adopted_at is Some || u.managed is Some || u.base_branch is Some
        || u.removed_at is Some
}

/// The statement of an update: its clauses joined by `, ` between
/// `UPDATE worktrees SET ` and ` WHERE id = ?`.
pub open spec fn update_sql_text(u: WorktreeUpdate) -> Seq<char> {
    "UPDATE worktrees SET "@ + crate::text::joined(update_clauses(u).map_values(|c: (Seq<char>, SqlValue)| c.0), ", "@)
        + " WHERE id = ?"@
}

/// The parameters of an update: the clauses' values, then the id.
pub open spec fn update_params(id: i64, u: WorktreeUpdate) -> Seq<SqlValue> {
    update_clauses(u).map_values(|c: (Seq<char>, SqlValue)| c.1).push(SqlValue::Integer(id))
}

fn push_clause(
    names: &mut Vec<String>,
    values: &mut Vec<SqlValue>,
    name: &str,
    value: SqlValue,
    Ghost(done): Ghost<Seq<(Seq<char>, SqlValue)>>,
)
    requires
        crate::text::views(old(names)@) == done.map_values(|c: (Seq<char>, SqlValue)| c.0),
        old(values)@ == done.map_values(|c: (Seq<char>, SqlValue)| c.1),
    ensures
        crate::text::views(final(names)@) == done.push((name@, value)).map_values(|c: (Seq<char>, SqlValue)| c.0),
        final(values)@ == done.push((name@, value)).map_values(|c: (Seq<char>, SqlValue)| c.1),
{
    let ghost before = old(names)@;
    names.push(String::from_str(name));
    values.push(value);
    assert(crate::text::views(names@) =~= crate::text::views(before).push(name@));
    assert(done.push((name@, value)).map_values(|c: (Seq<char>, SqlValue)| c.0) =~= done.map_values(|c: (Seq<char>, SqlValue)| c.0).push(name@));
    assert(crate::text::views(names@) =~= done.push((name@, value)).map_values(|c: (Seq<char>, SqlValue)| c.0));
    assert(values@ =~= done.push((name@, value)).map_values(|c: (Seq<char>, SqlValue)| c.1));
}

/// The statement and parameters that apply `u` to the worktree `id`; `None`
/// when the update changes nothing.
pub fn update_statement(id: i64, u: &WorktreeUpdate) -> (r: Option<(String, Vec<SqlValue>)>)
    ensures
        match r {
            Some((sql, params)) => has_changes(*u) && sql@ == update_sql_text(*u) && params@ == update_params(id, *u),
            None => !has_changes(*u),
        },
{
    if !(u.last_accessed.is_some() || u.adopted_at.is_some() || u.managed.is_some() || u.base_branch.is_some()
        || u.removed_at.is_some()) {
        return None;
    }
    let mut names: Vec<String> = Vec::new();
    let mut values: Vec<SqlValue> = Vec::new();
    let ghost mut done: Seq<(Seq<char>, SqlValue)> = Seq::empty();
    proof {
        assert(crate::text::views(names@) =~= done.map_values(|c: (Seq<char>, SqlValue)| c.0));
        assert(values@ =~= done.map_values(|c: (Seq<char>, SqlValue)| c.1));
    }
    match u.last_accessed {
        Some(v) => {
            push_clause(&mut names, &mut values, "last_accessed = ?", int_value(v), Ghost(done));
            proof { done = done.push(("last_accessed = ?"@, int_param(v))); }
        },
        None => {},
    }
    match u.adopted_at {
        Some(v) => {
            push_clause(&mut names, &mut values, "adopted_at = ?", int_value(v), Ghost(done));
            proof { done = done.push(("adopted_at = ?"@, int_param(v))); }
        },
        None => {},
    }
    match u.managed {
        Some(b) => {
            let flag: i64 = if b { 1 } else { 0 };
            push_clause(&mut names, &mut values, "managed = ?", SqlValue::Integer(flag), Ghost(done));
            proof { done = done.push(("managed = ?"@, SqlValue::Integer(flag))); }
        },
        None => {},
    }
    match &u.base_branch {
        Some(v) => {
            let value = match v {
                Some(s) => SqlValue::Text(s.clone()),
                None => SqlValue::Null,
            };
            push_clause(&mut names, &mut values, "base_branch = ?", value, Ghost(done));
            proof { done = done.push(("base_branch = ?"@, text_param(*v))); }
        },
        None => {},
    }
    match u.removed_at {
        Some(v) => {
            push_clause(&mut names, &mut values, "removed_at = COALESCE(removed_at, ?)", int_value(v), Ghost(done));
            proof { done = done.push(("removed_at = COALESCE(removed_at, ?)"@, int_param(v))); }
        },
        None => {},
    }
    proof {
        assert(done =~= update_clauses(*u));
    }
    let mut sql = String::from_str("UPDATE worktrees SET ");
    let joined = crate::text::join(&names, ", ");
    append_str(&mut sql, joined.as_str());
    append_str(&mut sql, " WHERE id = ?");
    values.push(SqlValue::Integer(id));
    Some((sql, values))
}

/// Partial updates: an update that only nulls the base branch writes exactly
/// that one assignment with a null value; an update that changes nothing
/// writes nothing; one that sets a value writes that value.
pub proof fn partial_update_semantics(id: i64, u: WorktreeUpdate, branch: String)
    ensures
        (WorktreeUpdate { base_branch: Some(None), last_accessed: None, adopted_at: None, managed: None, removed_at: None }
            == u) ==> update_clauses(u) == seq![("base_branch = ?"@, SqlValue::Null)],
        (WorktreeUpdate { base_branch: Some(Some(branch)), last_accessed: None, adopted_at: None, managed: None, removed_at: None }
            == u) ==> update_clauses(u) == seq![("base_branch = ?"@, SqlValue::Text(branch))],
        !has_changes(u) ==> update_clauses(u).len() == 0,
{
    assert(!has_changes(u) ==> update_clauses(u) =~= Seq::empty());
    assert((WorktreeUpdate { base_branch: Some(None), last_accessed: None, adopted_at: None, managed: None, removed_at: None }
        == u) ==> update_clauses(u) =~= seq![("base_branch = ?"@, SqlValue::Null)]);
    assert((WorktreeUpdate { base_branch: Some(Some(branch)), last_accessed: None, adopted_at: None, managed: None, removed_at: None }
        == u) ==> update_clauses(u) =~= seq![("base_branch = ?"@, SqlValue::Text(branch))]);
}

/// The columns of a worktree row, in decoding order.
pub const WORKTREE_COLUMNS: &'static str = "id, repo_id, name, branch, path, base_branch, managed, adopted_at, last_accessed, removed_at, created_at";

/// The file name of the backup of `path` made at `ts`: `path` followed by
/// `.backup-` and the timestamp.
pub fn backup_path(path: &str, ts: u64) -> (r: String)
    ensures
        r@ == path@ + ".backup-"@ + crate::text::decimal(ts as nat),
{
    let mut s = String::from_str(path);
    append_str(&mut s, ".backup-");
    let d = u64_to_decimal(ts);
    append_str(&mut s, d.as_str());
    s
}

/// `all` is what the rows decode to, row by row.
pub open spec fn decodes(rows: Seq<Vec<SqlValue>>, all: Seq<Worktree>) -> bool {
    rows.len() == all.len() && forall|i: int| 0 <= i < rows.len() ==> decode_worktree((#[trigger] rows[i])@) == Some(all[i])
}

/// The worktrees in the rows, each row decoded; `BadRow` when one does not
/// have the shape of a worktree.
pub fn decode_worktrees(rows: &Vec<Vec<SqlValue>>) -> (r: Result<Vec<Worktree>, StoreError>)
    ensures
        r matches Ok(v) ==> decodes(rows@, v@),
        r matches Err(e) ==> e is BadRow && exists|i: int| 0 <= i < rows@.len() && decode_worktree((#[trigger] rows@[i])@) is None,
{
    let mut out: Vec<Worktree> = Vec::new();
    let mut i: usize = 0;
    while i < rows.len()
        invariant
            i <= rows@.len(),
            decodes(rows@.take(i as int), out@),
        decreases rows@.len() - i,
    {
        match worktree_from_row(&rows[i]) {
            Some(wt) => {
                out.push(wt);
                assert(decodes(rows@.take(i as int + 1), out@)) by {
                    assert forall|k: int| 0 <= k < i + 1 implies decode_worktree((#[trigger] rows@.take(i as int + 1)[k])@) == Some(out@[k]) by {
                        if k < i {
                            assert(rows@.take(i as int)[k] == rows@[k]);
                        }
                    }
                }
            },
            None => {
                return Err(StoreError::BadRow);
            },
        }
        i = i + 1;
    }
    assert(rows@.take(rows@.len() as int) =~= rows@);
    Ok(out)
}

/// The query for the live worktrees of a repository, oldest first, and its parameters.
pub fn live_worktrees_query(repo_id: i64) -> (r: (String, Vec<SqlValue>))
    ensures
        r.0@ == "SELECT "@ + WORKTREE_COLUMNS@ + " FROM worktrees WHERE repo_id = ?1 AND removed_at IS NULL ORDER BY created_at, id"@,
        r.1@ == seq![SqlValue::Integer(repo_id)],
{
    let mut params: Vec<SqlValue> = Vec::new();
    params.push(SqlValue::Integer(repo_id));
    let mut sql = String::from_str("SELECT ");
    append_str(&mut sql, WORKTREE_COLUMNS);
    append_str(&mut sql, " FROM worktrees WHERE repo_id = ?1 AND removed_at IS NULL ORDER BY created_at, id");
    assert(params@ =~= seq![SqlValue::Integer(repo_id)]);
    (sql, params)
}

/// The query for the worktree with an id, and its parameters.
pub fn worktree_by_id_query(id: i64) -> (r: (String, Vec<SqlValue>))
    ensures
        r.0@ == "SELECT "@ + WORKTREE_COLUMNS@ + " FROM worktrees WHERE id = ?1"@,
        r.1@ == seq![SqlValue::Integer(id)],
{
    let mut params: Vec<SqlValue> = Vec::new();
    params.push(SqlValue::Integer(id));
    let mut sql = String::from_str("SELECT ");
    append_str(&mut sql, WORKTREE_COLUMNS);
    append_str(&mut sql, " FROM worktrees WHERE id = ?1");
    assert(params@ =~= seq![SqlValue::Integer(id)]);
    (sql, params)
}

/// The worktree a lookup by `id` gives from the rows it read: none when it
/// read none, the first when it has that id; a row of another id is `BadRow`.
pub fn first_with_id(found: &Vec<Worktree>, id: i64) -> (r: Result<Option<Worktree>, StoreError>)
    ensures
        (r matches Ok(None)) <==> found@.len() == 0,
        r matches Ok(Some(w)) ==> found@.len() > 0 && w == found@[0] && w.id == id,
        r matches Err(e) ==> e is BadRow && found@.len() > 0 && found@[0].id != id,
{
    if found.len() == 0 {
        return Ok(None);
    }
    if found[0].id == id {
        Ok(Some(found[0].clone_record()))
    } else {
        Err(StoreError::BadRow)
    }
}

/// The result of an update that changed `affected` rows of worktree `id`:
/// `NotFound` exactly when it changed none.
pub fn update_result(id: i64, affected: usize) -> (r: Result<(), StoreError>)
    ensures
        (r is Ok) <==> affected > 0,
        r matches Err(e) ==> e is NotFound && e->NotFound_id == id,
{
    if affected == 0 {
        Err(StoreError::NotFound { id })
    } else {
        Ok(())
    }
}

/// Whether an event of `repo_id` may name the worktree `worktree_id`, given
/// what the lookup of that worktree found: it must exist and belong to the
/// repository.
pub fn event_check(repo_id: i64, worktree_id: i64, found: &Option<Worktree>) -> (r: Result<(), StoreError>)
    ensures
        (r is Ok) <==> (found matches Some(w) && w.repo_id == repo_id),
        r matches Err(StoreError::NotFound { id }) ==> found is None && id == worktree_id,
        r matches Err(StoreError::WorktreeRepoMismatch { repo_id: a, worktree_id: b }) ==> found is Some && a == repo_id && b == worktree_id,
        r matches Err(e) ==> e is NotFound || e is WorktreeRepoMismatch,
{
    match found {
        Some(w) => if w.repo_id == repo_id {
            Ok(())
        } else {
            Err(StoreError::WorktreeRepoMismatch { repo_id, worktree_id })
        },
        None => Err(StoreError::NotFound { id: worktree_id }),
    }
}

/// The count read from the rows of a `COUNT(*)` query: one row of one
/// non-negative integer, anything else is `BadRow`.
pub fn count_from_rows(rows: &Vec<Vec<SqlValue>>) -> (r: Result<i64, StoreError>)
    ensures
        r matches Ok(n) ==> rows@.len() == 1 && rows@[0]@.len() >= 1 && rows@[0]@[0] == SqlValue::Integer(n) && n >= 0,
        (r is Err) ==> (r matches Err(e) && e is BadRow),
{
    if rows.len() != 1 || rows[0].len() == 0 {
        return Err(StoreError::BadRow);
    }
    match int_col(&rows[0][0]) {
        Some(n) => if n >= 0 { Ok(n) } else { Err(StoreError::BadRow) },
        None => Err(StoreError::BadRow),
    }
}

/// The store: one SQLite connection with the schema migrated.
pub struct Database {
    conn: rusqlite::Connection,
}

/// What opening the store file leads to.
pub enum OpenStep {
    /// The store is open.
    Ready(Database),
    /// The file's schema is newer than this build: move the file to `backup`
    /// and open again, which creates a fresh store.
    SetAside { backup: String },
    Failed(StoreError),
}

/// The step that the result of opening the store file leads to: an open store
/// is ready; a schema newer than this build is set aside under the backup name
/// for `ts`; any other error stays an error.
pub fn open_outcome(opened: Result<Database, StoreError>, path: &str, ts: u64) -> (r: OpenStep)
    ensures
        (opened is Ok) <==> (r is Ready),
        (opened matches Err(StoreError::TooFarAhead)) <==> (r is SetAside),
        r matches OpenStep::SetAside { backup } ==> backup@ == path@ + ".backup-"@ + crate::text::decimal(ts as nat),
        (opened is Err && !(opened matches Err(StoreError::TooFarAhead))) <==> (r is Failed),
        opened matches Err(e) ==> (r matches OpenStep::Failed(f) ==> f == e),
{
    match opened {
        Ok(db) => OpenStep::Ready(db),
        Err(StoreError::TooFarAhead) => OpenStep::SetAside { backup: backup_path(path, ts) },
        Err(e) => OpenStep::Failed(e),
    }
}

fn sqlite<T>(r: Result<T, rusqlite::Error>) -> (out: Result<T, StoreError>)
    ensures
        (r is Ok) <==> (out is Ok),
        out matches Ok(v) ==> r == Ok::<T, rusqlite::Error>(v),
        out matches Err(e) ==> e is Sqlite,
{
    match r {
        Ok(v) => Ok(v),
        Err(e) => Err(StoreError::Sqlite(e)),
    }
}

impl Database {
    /// Open (or create) the store file at `path`: write-ahead logging and
    /// foreign keys on, then the migrations. A file whose schema is newer than
    /// this build gives `TooFarAhead`, so that the caller can set it aside.
    pub fn open(path: &str) -> (r: Result<Database, StoreError>)
        ensures
            r matches Err(e) ==> e is Sqlite || e is Migration || e is TooFarAhead,
    {
        let conn = sqlite(open_connection(path))?;
        Database::init(conn)
    }

    /// Open the store file at `path`, or, when its schema is newer than this
    /// build, name the backup (made at time `ts`) it is to be moved to.
    pub fn open_step(path: &str, ts: u64) -> (r: OpenStep)
        ensures
            r matches OpenStep::SetAside { backup } ==> backup@ == path@ + ".backup-"@ + crate::text::decimal(ts as nat),
            r matches OpenStep::Failed(e) ==> e is Sqlite || e is Migration,
    {
        open_outcome(Database::open(path), path, ts)
    }

    /// Open a store that lives in memory only.
    pub fn open_in_memory() -> (r: Result<Database, StoreError>)
        ensures
            r matches Err(e) ==> e is Sqlite || e is Migration || e is TooFarAhead,
    {
        let conn = sqlite(open_memory_connection())?;
        Database::init(conn)
    }

    fn init(conn: rusqlite::Connection) -> (r: Result<Database, StoreError>)
        ensures
            r matches Err(e) ==> e is Sqlite || e is Migration || e is TooFarAhead,
    {
        let mut conn = conn;
        sqlite(execute_batch(&conn, PRAGMAS))?;
        match migrate_to_latest(&mut conn, SCHEMA_V1) {
            Ok(()) => Ok(Database { conn }),
            Err(MigrationFailure::TooFarAhead) => Err(StoreError::TooFarAhead),
            Err(MigrationFailure::Failed(e)) => Err(StoreError::Migration(e)),
        }
    }

    /// Insert a repository and return it with its id and creation time.
    pub fn insert_repo(&self, name: &str, path: &str, default_base: Option<&str>) -> (r: Result<Repo, StoreError>)
        ensures
            r matches Ok(repo) ==> repo.name@ == name@ && repo.path@ == path@ && match default_base {
                Some(b) => repo.default_base matches Some(d) && d@ == b@,
                None => repo.default_base is None,
            } && repo.created_at >= 0,
            r matches Err(e) ==> e is Sqlite,
    {
        let created_at = now();
        let mut params: Vec<SqlValue> = Vec::new();
        params.push(SqlValue::Text(String::from_str(name)));
        params.push(SqlValue::Text(String::from_str(path)));
        params.push(text_value(default_base));
        params.push(SqlValue::Integer(created_at));
        sqlite(execute(&self.conn, "INSERT INTO repos (name, path, default_base, created_at) VALUES (?1, ?2, ?3, ?4)", &params))?;
        let id = last_insert_rowid(&self.conn);
        let default_base = match default_base {
            Some(b) => Some(String::from_str(b)),
            None => None,
        };
        Ok(Repo { id, name: String::from_str(name), path: String::from_str(path), default_base, created_at })
    }

    fn first_repo(rows: &Vec<Vec<SqlValue>>) -> (r: Result<Option<Repo>, StoreError>)
        ensures
            r matches Ok(Some(repo)) ==> exists|i: int| 0 <= i < rows@.len() && decode_repo((#[trigger] rows@[i])@) == Some(repo),
            r matches Ok(None) ==> rows@.len() == 0,
            r matches Err(e) ==> e is BadRow,
    {
        if rows.len() == 0 {
            return Ok(None);
        }
        match repo_from_row(&rows[0]) {
            Some(repo) => Ok(Some(repo)),
            None => Err(StoreError::BadRow),
        }
    }

    /// The repository with this id, if any.
    pub fn get_repo(&self, id: i64) -> (r: Result<Option<Repo>, StoreError>)
        ensures
            r matches Ok(Some(repo)) ==> repo.id == id,
    {
        let mut params: Vec<SqlValue> = Vec::new();
        params.push(SqlValue::Integer(id));
        let rows = sqlite(query_rows(&self.conn, "SELECT id, name, path, default_base, created_at FROM repos WHERE id = ?1", &params, 5))?;
        match Database::first_repo(&rows)? {
            Some(repo) => if repo.id == id { Ok(Some(repo)) } else { Err(StoreError::BadRow) },
            None => Ok(None),
        }
    }

    /// The repository at this path, if any.
    pub fn get_repo_by_path(&self, path: &str) -> (r: Result<Option<Repo>, StoreError>)
        ensures
            r matches Ok(Some(repo)) ==> repo.path@ == path@,
    {
        let mut params: Vec<SqlValue> = Vec::new();
        params.push(SqlValue::Text(String::from_str(path)));
        let rows = sqlite(query_rows(&self.conn, "SELECT id, name, path, default_base, created_at FROM repos WHERE path = ?1", &params, 5))?;
        match Database::first_repo(&rows)? {
            Some(repo) => if crate::text::same_text(&repo.path, path) { Ok(Some(repo)) } else { Err(StoreError::BadRow) },
            None => Ok(None),
        }
    }

    /// Insert a managed worktree and return it with its id and creation time.
    pub fn insert_worktree(&self, repo_id: i64, name: &str, branch: &str, path: &str, base_branch: Option<&str>) -> (r: Result<Worktree, StoreError>)
        ensures
            r matches Ok(wt) ==> wt.repo_id == repo_id && wt.name@ == name@ && wt.branch@ == branch@ && wt.path@ == path@
                && match base_branch {
                Some(b) => wt.base_branch matches Some(d) && d@ == b@,
                None => wt.base_branch is None,
            } && wt.managed && wt.adopted_at is None && wt.last_accessed is None && wt.removed_at is None
                && wt.created_at >= 0,
            r matches Err(e) ==> e is Sqlite,
    {
        let created_at = now();
        let mut params: Vec<SqlValue> = Vec::new();
        params.push(SqlValue::Integer(repo_id));
        params.push(SqlValue::Text(String::from_str(name)));
        params.push(SqlValue::Text(String::from_str(branch)));
        params.push(SqlValue::Text(String::from_str(path)));
        params.push(text_value(base_branch));
        params.push(SqlValue::Integer(created_at));
        sqlite(execute(&self.conn, "INSERT INTO worktrees (repo_id, name, branch, path, base_branch, managed, created_at) VALUES (?1, ?2, ?3, ?4, ?5, 1, ?6)", &params))?;
        let id = last_insert_rowid(&self.conn);
        let base_branch = match base_branch {
            Some(b) => Some(String::from_str(b)),
            None => None,
        };
        Ok(Worktree {
            id,
            repo_id,
            name: String::from_str(name),
            branch: String::from_str(branch),
            path: String::from_str(path),
            base_branch,
            managed: true,
            adopted_at: None,
            last_accessed: None,
            removed_at: None,
            created_at,
        })
    }

    fn worktree_rows(&self, sql: &str, params: &Vec<SqlValue>) -> (r: Result<Vec<Worktree>, StoreError>)
        ensures
            r matches Ok(v) ==> exists|rows: Seq<Vec<SqlValue>>| decodes(rows, v@),
            r matches Err(e) ==> e is Sqlite || e is BadRow,
    {
        let rows = sqlite(query_rows(&self.conn, sql, params, 11))?;
        decode_worktrees(&rows)
    }

    /// The worktree with this id, removed or not, if any.
    pub fn get_worktree(&self, id: i64) -> (r: Result<Option<Worktree>, StoreError>)
        ensures
            r matches Ok(Some(wt)) ==> wt.id == id,
            r matches Ok(None) ==> exists|rows: Seq<Vec<SqlValue>>| rows.len() == 0 && decodes(rows, Seq::empty()),
            r matches Ok(Some(wt)) ==> exists|rows: Seq<Vec<SqlValue>>, all: Seq<Worktree>| decodes(rows, all) && all.len() > 0 && all[0] == wt,
            r matches Err(e) ==> e is Sqlite || e is BadRow,
    {
        let (sql, params) = worktree_by_id_query(id);
        let found = self.worktree_rows(sql.as_str(), &params)?;
        first_with_id(&found, id)
    }

    /// The worktrees of a repository that are not marked removed, in order of creation.
    pub fn list_worktrees(&self, repo_id: i64) -> (r: Result<Vec<Worktree>, StoreError>)
        ensures
            r matches Ok(list) ==> forall|i: int| 0 <= i < list@.len() ==> (#[trigger] list@[i]).repo_id == repo_id
                && list@[i].removed_at is None,
            r matches Ok(list) ==> by_creation(list@),
            r matches Ok(list) ==> exists|rows: Seq<Vec<SqlValue>>, all: Seq<Worktree>| decodes(rows, all) && list@ == all.filter(
                |w: Worktree| live_in(w, repo_id),
            ),
    {
        let (sql, params) = live_worktrees_query(repo_id);
        let rows = self.worktree_rows(sql.as_str(), &params)?;
        let list = live_of_repo(rows, repo_id);
        if !in_creation_order(&list) {
            return Err(StoreError::BadRow);
        }
        Ok(list)
    }

    /// The live worktree of a repository whose name or branch is `identifier`, if any.
    pub fn find_worktree_by_identifier(&self, repo_id: i64, identifier: &str) -> (r: Result<Option<Worktree>, StoreError>)
        ensures
            r matches Ok(Some(wt)) ==> wt.repo_id == repo_id && wt.removed_at is None && (wt.name@ == identifier@
                || wt.branch@ == identifier@),
    {
        let list = self.list_worktrees(repo_id)?;
        let mut i: usize = 0;
        while i < list.len()
            invariant
                i <= list@.len(),
                forall|k: int| 0 <= k < list@.len() ==> (#[trigger] list@[k]).repo_id == repo_id && list@[k].removed_at is None,
            decreases list@.len() - i,
        {
            let wt = &list[i];
            if crate::text::same_text(&wt.name, identifier) || crate::text::same_text(&wt.branch, identifier) {
                return Ok(Some(wt.clone_record()));
            }
            i = i + 1;
        }
        Ok(None)
    }

    /// Apply a partial update to the worktree `id`. An update that changes
    /// nothing succeeds without touching the store; otherwise a missing
    /// worktree gives `NotFound`.
    pub fn update_worktree(&self, id: i64, update: &WorktreeUpdate) -> (r: Result<(), StoreError>)
        ensures
            !has_changes(*update) ==> r is Ok,
            r matches Err(e) ==> (e is NotFound && e->NotFound_id == id) || e is Sqlite,
    {
        let (sql, params) = match update_statement(id, update) {
            Some(s) => s,
            None => {
                return Ok(());
            },
        };
        let affected = sqlite(execute(&self.conn, sql.as_str(), &params))?;
        update_result(id, affected)
    }

    /// Append an event. When it names a worktree, that worktree must exist and
    /// belong to `repo_id`. `payload` is stored as given (JSON text).
    pub fn insert_event(&self, repo_id: i64, worktree_id: Option<i64>, event_type: &str, payload: Option<&str>) -> (r: Result<i64, StoreError>)
        ensures
            r matches Err(StoreError::WorktreeRepoMismatch { repo_id: a, worktree_id: b }) ==> a == repo_id && worktree_id == Some(b),
            r matches Err(StoreError::NotFound { id }) ==> worktree_id == Some(id),
            (r is Ok && worktree_id is Some) ==> exists|w: Worktree| w.id == worktree_id->Some_0 && w.repo_id == repo_id,
    {
        match worktree_id {
            Some(wid) => {
                let found = self.get_worktree(wid)?;
                event_check(repo_id, wid, &found)?;
            },
            None => {},
        }
        let created_at = now();
        let mut params: Vec<SqlValue> = Vec::new();
        params.push(SqlValue::Integer(repo_id));
        params.push(int_value(worktree_id));
        params.push(SqlValue::Text(String::from_str(event_type)));
        params.push(text_value(payload));
        params.push(SqlValue::Integer(created_at));
        match execute(&self.conn, "INSERT INTO events (repo_id, worktree_id, event_type, payload, created_at) VALUES (?1, ?2, ?3, ?4, ?5)", &params) {
            Ok(_) => Ok(last_insert_rowid(&self.conn)),
            Err(e) => Err(StoreError::Sqlite(e)),
        }
    }

    /// The number of events of a worktree, of one type when `event_type` is given.
    pub fn count_events(&self, worktree_id: i64, event_type: Option<&str>) -> (r: Result<i64, StoreError>)
        ensures
            r matches Ok(n) ==> n >= 0,
            r matches Ok(n) ==> exists|rows: Seq<Vec<SqlValue>>| rows.len() == 1 && rows[0]@.len() >= 1 && rows[0]@[0] == SqlValue::Integer(n),
    {
        let mut params: Vec<SqlValue> = Vec::new();
        params.push(SqlValue::Integer(worktree_id));
        let sql = match event_type {
            Some(t) => {
                params.push(SqlValue::Text(String::from_str(t)));
                "SELECT COUNT(*) FROM events WHERE worktree_id = ?1 AND event_type = ?2"
            },
            None => "SELECT COUNT(*) FROM events WHERE worktree_id = ?1",
        };
        let rows = match query_rows(&self.conn, sql, &params, 1) {
            Ok(rows) => rows,
            Err(e) => {
                return Err(StoreError::Sqlite(e));
            },
        };
        count_from_rows(&rows)
    }

    /// Attach a tag to a worktree; attaching it twice changes nothing.
    pub fn add_tag(&self, worktree_id: i64, name: &str) -> (r: Result<(), StoreError>)
        ensures
            r matches Err(e) ==> e is Sqlite,
    {
        let mut params: Vec<SqlValue> = Vec::new();
        params.push(SqlValue::Integer(worktree_id));
        params.push(SqlValue::Text(String::from_str(name)));
        sqlite(execute(&self.conn, "INSERT OR IGNORE INTO tags (worktree_id, name) VALUES (?1, ?2)", &params))?;
        Ok(())
    }

    /// Detach a tag from a worktree; detaching an absent tag changes nothing.
    pub fn remove_tag(&self, worktree_id: i64, name: &str) -> (r: Result<(), StoreError>)
        ensures
            r matches Err(e) ==> e is Sqlite,
    {
        let mut params: Vec<SqlValue> = Vec::new();
        params.push(SqlValue::Integer(worktree_id));
        params.push(SqlValue::Text(String::from_str(name)));
        sqlite(execute(&self.conn, "DELETE FROM tags WHERE worktree_id = ?1 AND name = ?2", &params))?;
        Ok(())
    }

    /// The tags of a worktree, in alphabetical (character) order.
    pub fn list_tags(&self, worktree_id: i64) -> (r: Result<Vec<String>, StoreError>)
        ensures
            r matches Err(e) ==> e is Sqlite || e is BadRow,
            r matches Ok(tags) ==> in_text_order(tags@),
    {
        let mut params: Vec<SqlValue> = Vec::new();
        params.push(SqlValue::Integer(worktree_id));
        let rows = match query_rows(&self.conn, "SELECT name FROM tags WHERE worktree_id = ?1 ORDER BY name", &params, 1) {
            Ok(rows) => rows,
            Err(e) => {
                return Err(StoreError::Sqlite(e));
            },
        };
        let mut out: Vec<String> = Vec::new();
        let mut i: usize = 0;
        while i < rows.len()
            invariant
                i <= rows@.len(),
                forall|k: int| 0 <= k < rows@.len() ==> (#[trigger] rows@[k])@.len() == 1,
            decreases rows@.len() - i,
        {
            match text_col(&rows[i][0]) {
                Some(t) => out.push(t),
                None => {
                    return Err(StoreError::BadRow);
                },
            }
            i = i + 1;
        }
        let mut k: usize = 1;
        while k < out.len()
            invariant
                1 <= k,
                forall|j: int| 0 <= j < k - 1 && j < out@.len() - 1 ==> text_le((#[trigger] out@[j])@, out@[j + 1]@),
            decreases out@.len() - k,
        {
            if !text_not_after(&out[k - 1], &out[k]) {
                return Err(StoreError::BadRow);
            }
            k = k + 1;
        }
        Ok(out)
    }

    /// The live worktrees of a repository that carry `tag`, in order of creation.
    pub fn list_worktrees_by_tag(&self, repo_id: i64, tag: &str) -> (r: Result<Vec<Worktree>, StoreError>)
        ensures
            r matches Ok(list) ==> forall|i: int| 0 <= i < list@.len() ==> (#[trigger] list@[i]).repo_id == repo_id
                && list@[i].removed_at is None,
            r matches Ok(list) ==> by_creation(list@),
            r matches Ok(list) ==> exists|rows: Seq<Vec<SqlValue>>, all: Seq<Worktree>| decodes(rows, all) && list@ == all.filter(
                |w: Worktree| live_in(w, repo_id),
            ),
    {
        let mut params: Vec<SqlValue> = Vec::new();
        params.push(SqlValue::Integer(repo_id));
        params.push(SqlValue::Text(String::from_str(tag)));
        let sql = "SELECT w.id, w.repo_id, w.name, w.branch, w.path, w.base_branch, w.managed, w.adopted_at, w.last_accessed, w.removed_at, w.created_at FROM worktrees w JOIN tags t ON t.worktree_id = w.id WHERE w.repo_id = ?1 AND t.name = ?2 AND w.removed_at IS NULL ORDER BY w.created_at, w.id";
        let rows = self.worktree_rows(sql, &params)?;
        let list = live_of_repo(rows, repo_id);
        if !in_creation_order(&list) {
            return Err(StoreError::BadRow);
        }
        Ok(list)
    }

    /// Record a value of the session state under `key`, replacing an earlier one.
    pub fn set_session(&self, key: &str, value: &str) -> (r: Result<(), StoreError>)
        ensures
            r matches Err(e) ==> e is Sqlite,
    {
        let mut params: Vec<SqlValue> = Vec::new();
        params.push(SqlValue::Text(String::from_str(key)));
        params.push(SqlValue::Text(String::from_str(value)));
        sqlite(execute(&self.conn, "INSERT OR REPLACE INTO session (key, value) VALUES (?1, ?2)", &params))?;
        Ok(())
    }

    /// The session value under `key`, if any.
    pub fn get_session(&self, key: &str) -> (r: Result<Option<String>, StoreError>)
        ensures
            r matches Err(e) ==> e is Sqlite || e is BadRow,
    {
        let mut params: Vec<SqlValue> = Vec::new();
        params.push(SqlValue::Text(String::from_str(key)));
        let rows = match query_rows(&self.conn, "SELECT value FROM session WHERE key = ?1", &params, 1) {
            Ok(rows) => rows,
            Err(e) => {
                return Err(StoreError::Sqlite(e));
            },
        };
        if rows.len() == 0 {
            return Ok(None);
        }
        match text_col(&rows[0][0]) {
            Some(v) => Ok(Some(v)),
            None => Err(StoreError::BadRow),
        }
    }
}

impl Worktree {
    /// A copy of this record.
    pub fn clone_record(&self) -> (r: Worktree)
        ensures
            r == *self,
    {
        Worktree {
            id: self.id,
            repo_id: self.repo_id,
            name: self.name.clone(),
            branch: self.branch.clone(),
            path: self.path.clone(),
            base_branch: match &self.base_branch {
                Some(b) => Some(b.clone()),
                None => None,
            },
            managed: self.managed,
            adopted_at: self.adopted_at,
            last_accessed: self.last_accessed,
            removed_at: self.removed_at,
            created_at: self.created_at,
        }
    }
}

/// The worktrees are in order of creation.
pub open spec fn by_creation(list: Seq<Worktree>) -> bool {
    forall|i: int, j: int| 0 <= i < j < list.len() ==> (#[trigger] list[i]).created_at <= (#[trigger] list[j]).created_at
}

/// Whether the worktrees are in order of creation.
pub fn in_creation_order(list: &Vec<Worktree>) -> (r: bool)
    ensures
        r == by_creation(list@),
{
    let n = list.len();
    if n == 0 {
        return true;
    }
    let mut k: usize = 1;
    while k < n
        invariant
            n == list@.len(),
            1 <= k <= n,
            by_creation(list@.take(k as int)),
        decreases n - k,
    {
        if list[k - 1].created_at > list[k].created_at {
            assert(list@.take(k as int + 1)[k - 1] == list@[k - 1]);
            assert(!by_creation(list@)) by {
                assert(list@[k - 1].created_at > list@[k as int].created_at);
            }
            return false;
        }
        assert forall|i: int, j: int| 0 <= i < j < k + 1 implies (#[trigger] list@.take(k as int + 1)[i]).created_at
            <= (#[trigger] list@.take(k as int + 1)[j]).created_at by {
            if j < k {
                assert(list@.take(k as int)[i] == list@[i]);
                assert(list@.take(k as int)[j] == list@[j]);
            } else if i < k - 1 {
                assert(list@.take(k as int)[i] == list@[i]);
                assert(list@.take(k as int)[k - 1] == list@[k - 1]);
            }
        }
        k = k + 1;
    }
    assert(list@.take(n as int) =~= list@);
    true
}

/// `a` is not after `b` in character order.
pub open spec fn text_le(a: Seq<char>, b: Seq<char>) -> bool
    decreases a.len(),
{
    if a.len() == 0 {
        true
    } else if b.len() == 0 {
        false
    } else if a[0] != b[0] {
        (a[0] as u32) < (b[0] as u32)
    } else {
        text_le(a.skip(1), b.skip(1))
    }
}

/// Whether `a` is not after `b` in character order.
pub fn text_not_after(a: &String, b: &String) -> (r: bool)
    ensures
        r == text_le(a@, b@),
{
    let x = crate::text::chars_of(a.as_str());
    let y = crate::text::chars_of(b.as_str());
    let mut i: usize = 0;
    assert(x@.skip(0) =~= x@);
    assert(y@.skip(0) =~= y@);
    while i < x.len() && i < y.len()
        invariant
            x@ == a@,
            y@ == b@,
            i <= x@.len(),
            i <= y@.len(),
            text_le(a@, b@) == text_le(x@.skip(i as int), y@.skip(i as int)),
        decreases x@.len() - i,
    {
        let ghost xs = x@.skip(i as int);
        let ghost ys = y@.skip(i as int);
        assert(xs[0] == x@[i as int]);
        assert(ys[0] == y@[i as int]);
        if x[i] != y[i] {
            return (x[i] as u32) < (y[i] as u32);
        }
        assert(xs.skip(1) =~= x@.skip(i as int + 1));
        assert(ys.skip(1) =~= y@.skip(i as int + 1));
        i = i + 1;
    }
    i == x.len()
}

/// Each text is not after the next one.
pub open spec fn in_text_order(list: Seq<String>) -> bool {
    forall|i: int| 0 <= i < list.len() - 1 ==> text_le((#[trigger] list[i])@, list[i + 1]@)
}

/// The worktree is live and belongs to the repository.
pub open spec fn live_in(w: Worktree, repo_id: i64) -> bool {
    w.repo_id == repo_id && w.removed_at is None
}

/// The worktrees of `rows` that belong to `repo_id` and are not marked
/// removed, in their order.
pub fn live_of_repo(rows: Vec<Worktree>, repo_id: i64) -> (r: Vec<Worktree>)
    ensures
        r@ == rows@.filter(|w: Worktree| live_in(w, repo_id)),
        forall|i: int| 0 <= i < r@.len() ==> (#[trigger] r@[i]).repo_id == repo_id && r@[i].removed_at is None,
{
    let ghost pred = |w: Worktree| live_in(w, repo_id);
    let mut out: Vec<Worktree> = Vec::new();
    let mut i: usize = 0;
    while i < rows.len()
        invariant
            i <= rows@.len(),
            pred == (|w: Worktree| live_in(w, repo_id)),
            out@ == rows@.take(i as int).filter(pred),
        decreases rows@.len() - i,
    {
        reveal(Seq::filter);
        assert(rows@.take(i as int + 1).drop_last() =~= rows@.take(i as int));
        let w = &rows[i];
        if w.repo_id == repo_id && w.removed_at.is_none() {
            out.push(w.clone_record());
        }
        i = i + 1;
    }
    assert(rows@.take(rows@.len() as int) =~= rows@);
    proof {
        assert forall|i: int| 0 <= i < out@.len() implies (#[trigger] out@[i]).repo_id == repo_id && out@[i].removed_at is None by {
            rows@.lemma_filter_pred(pred, i);
        }
    }
    out
}

/// Soft deletion: a worktree marked removed is never among those listed,
/// whatever the rows read; the listing keeps the others in order.
pub proof fn removed_never_listed(rows: Seq<Worktree>, repo_id: i64, w: Worktree)
    requires
        w.removed_at is Some,
    ensures
        !rows.filter(|x: Worktree| live_in(x, repo_id)).contains(w),
{
    let pred = |x: Worktree| live_in(x, repo_id);
    let listed = rows.filter(pred);
    if listed.contains(w) {
        let j = choose|j: int| 0 <= j < listed.len() && listed[j] == w;
        rows.lemma_filter_pred(pred, j);
    }
}

} // verus!
