//! SQLite connection setup and schema migrations.

use vstd::prelude::*;
use vstd::string::{StrSliceExecFns, StringExecFns};

use crate::error::AppError;
use crate::sqlite::{
    sql_execute_batch, sql_meta_table_exists, sql_meta_value, sql_open, sql_open_in_memory, sql_pragma_int,
    sql_pragma_text, sql_set_db_version,
};

verus! {

#[verifier::external_type_specification]
#[verifier::external_body]
pub struct ExSystemTime(std::time::SystemTime);

#[verifier::external_type_specification]
#[verifier::external_body]
pub struct ExSystemTimeError(std::time::SystemTimeError);

/// Version of the single schema migration.
pub const MIGRATION_001_VERSION: &'static str = "001";

/// The initial schema: projects, secrets (value encrypted), tags and their
/// links, and the `vault_meta` key/value table.
pub const MIGRATION_001_SQL: &'static str = "
CREATE TABLE IF NOT EXISTS vault_meta (
    key   TEXT PRIMARY KEY,
    value TEXT NOT NULL
);
CREATE TABLE IF NOT EXISTS projects (
    id          TEXT PRIMARY KEY,
    name        TEXT NOT NULL UNIQUE,
    description TEXT,
    created_at  INTEGER NOT NULL,
    updated_at  INTEGER NOT NULL
);
CREATE TABLE IF NOT EXISTS secrets (
    id              TEXT PRIMARY KEY,
    project_id      TEXT NOT NULL REFERENCES projects(id) ON DELETE CASCADE,
    key             TEXT NOT NULL,
    value_encrypted BLOB NOT NULL,
    description     TEXT,
    created_at      INTEGER NOT NULL,
    updated_at      INTEGER NOT NULL,
    UNIQUE(project_id, key)
);
CREATE TABLE IF NOT EXISTS tags (
    id   TEXT PRIMARY KEY,
    name TEXT NOT NULL UNIQUE
);
CREATE TABLE IF NOT EXISTS secret_tags (
    secret_id TEXT NOT NULL REFERENCES secrets(id) ON DELETE CASCADE,
    tag_id    TEXT NOT NULL REFERENCES tags(id) ON DELETE CASCADE,
    PRIMARY KEY (secret_id, tag_id)
);
";

/// `SystemTime::now`.
#[verifier::external_body]
fn system_time_now() -> std::time::SystemTime {
    std::time::SystemTime::now()
}

/// `SystemTime::duration_since(UNIX_EPOCH)`.
#[verifier::external_body]
fn since_unix_epoch(t: std::time::SystemTime) -> (r: Result<std::time::Duration, std::time::SystemTimeError>) {
    t.duration_since(std::time::UNIX_EPOCH)
}

/// `Duration::as_millis`.
#[verifier::external_body]
fn duration_as_millis(d: &std::time::Duration) -> u128 {
    d.as_millis()
}

/// The millisecond count of a clock reading taken against the unix epoch, as
/// `i64` (truncating, as `as` does); 0 when the clock was before the epoch.
pub fn millis_or_zero(r: Result<u128, ()>) -> (m: i64)
    ensures
        r matches Ok(x) ==> m == x as i64,
        r is Err ==> m == 0,
{
    match r {
        Ok(x) => x as i64,
        Err(_) => 0,
    }
}

/// Current unix time in milliseconds (0 if the clock is before the epoch).
pub fn now_ms() -> i64 {
    let since: Result<u128, ()> = match since_unix_epoch(system_time_now()) {
        Ok(d) => Ok(duration_as_millis(&d)),
        Err(_) => Err(()),
    };
    millis_or_zero(since)
}

/// Lift a SQLite result: an error becomes `AppError::Database`.
pub fn lift<T>(r: Result<T, rusqlite::Error>) -> (out: Result<T, AppError>)
    ensures
        r is Ok <==> out is Ok,
        r matches Ok(v) ==> out matches Ok(w) && w == v,
        out matches Err(e) ==> e matches AppError::Database(_),
{
    match r {
        Ok(v) => Ok(v),
        Err(e) => Err(AppError::Database(e)),
    }
}

/// Apply the standard pragmas used by the app.
fn apply_pragmas(conn: &rusqlite::Connection) -> (r: Result<(), AppError>)
    ensures
        r matches Err(e) ==> e matches AppError::Database(_),
{
    lift(sql_pragma_text(conn, "journal_mode", "WAL"))?;
    lift(sql_pragma_text(conn, "foreign_keys", "ON"))?;
    lift(sql_pragma_int(conn, "busy_timeout", 5000))?;
    Ok(())
}

/// Lexicographic order on character sequences.
pub open spec fn chars_le(a: Seq<char>, b: Seq<char>) -> bool
    decreases a.len(),
{
    if a.len() == 0 {
        true
    } else if b.len() == 0 {
        false
    } else if a[0] != b[0] {
        a[0] < b[0]
    } else {
        chars_le(a.drop_first(), b.drop_first())
    }
}

/// `a <= b` as strings.
fn str_le(a: &str, b: &str) -> (le: bool)
    ensures
        le == chars_le(a@, b@),
{
    let la = a.unicode_len();
    let lb = b.unicode_len();
    let mut i: usize = 0;
    assert(a@.skip(0) =~= a@ && b@.skip(0) =~= b@);
    while i < la && i < lb
        invariant
            la == a@.len(),
            lb == b@.len(),
            0 <= i <= la,
            i <= lb,
            a@.take(i as int) == b@.take(i as int),
            chars_le(a@, b@) == chars_le(a@.skip(i as int), b@.skip(i as int)),
        decreases la - i,
    {
        let ca = a.get_char(i);
        let cb = b.get_char(i);
        proof {
            assert(a@.skip(i as int)[0] == ca);
            assert(b@.skip(i as int)[0] == cb);
        }
        if ca != cb {
            return ca < cb;
        }
        proof {
            assert(a@.skip(i as int).drop_first() =~= a@.skip(i + 1));
            assert(b@.skip(i as int).drop_first() =~= b@.skip(i + 1));
            assert(a@.take(i + 1) =~= a@.take(i as int).push(ca));
            assert(b@.take(i + 1) =~= b@.take(i as int).push(cb));
        }
        i = i + 1;
    }
    i == la
}

/// A migration of version `version` is already applied when the stored
/// version is at least `version`.
pub fn migration_applied(version: &str, current: &Option<String>) -> (applied: bool)
    ensures
        applied == (current matches Some(v) && chars_le(version@, v@)),
{
    match current {
        Some(v) => str_le(version, v.as_str()),
        None => false,
    }
}

/// Read the stored schema version, if the meta table exists and holds one.
fn current_version(conn: &rusqlite::Connection) -> Option<String> {
    let exists = match sql_meta_table_exists(conn) {
        Ok(b) => b,
        Err(_) => false,
    };
    if !exists {
        return None;
    }
    match sql_meta_value(conn, "db_version") {
        Ok(v) => Some(v),
        Err(_) => None,
    }
}

/// Run any migrations newer than the stored `db_version`.
pub fn run_migrations(conn: &rusqlite::Connection) -> (r: Result<(), AppError>)
    ensures
        r matches Err(e) ==> e matches AppError::Database(_),
{
    let current = current_version(conn);
    if migration_applied(MIGRATION_001_VERSION, &current) {
        return Ok(());
    }
    lift(sql_execute_batch(conn, MIGRATION_001_SQL))?;
    lift(sql_set_db_version(conn, MIGRATION_001_VERSION))?;
    Ok(())
}

/// The statement that keys a SQLCipher connection with a raw hex key:
/// `PRAGMA key = "x'<key_hex>'";`.
pub fn key_pragma(key_hex: &str) -> (sql: String)
    ensures
        sql@ == "PRAGMA key = \"x'"@ + key_hex@ + "'\";"@,
{
    let mut sql = String::from_str("PRAGMA key = \"x'");
    sql.append(key_hex);
    sql.append("'\";");
    sql
}

/// Open (creating if needed) the vault DB file at `path`, apply pragmas, run
/// migrations. The directory must exist.
pub fn open_file(path: &str) -> (r: Result<rusqlite::Connection, AppError>)
    ensures
        r matches Err(e) ==> e matches AppError::Database(_),
{
    let conn = lift(sql_open(path))?;
    apply_pragmas(&conn)?;
    run_migrations(&conn)?;
    Ok(conn)
}

/// Like [`open_file`], keying the connection with `key_hex` first.
pub fn open_file_keyed(path: &str, key_hex: &str) -> (r: Result<rusqlite::Connection, AppError>)
    ensures
        r matches Err(e) ==> e matches AppError::Database(_),
{
    let conn = lift(sql_open(path))?;
    let pragma = key_pragma(key_hex);
    lift(sql_execute_batch(&conn, pragma.as_str()))?;
    apply_pragmas(&conn)?;
    run_migrations(&conn)?;
    Ok(conn)
}

/// Open an in-memory DB with foreign keys on and the schema in place.
pub fn open_in_memory() -> (r: Result<rusqlite::Connection, AppError>)
    ensures
        r matches Err(e) ==> e matches AppError::Database(_),
{
    let conn = lift(sql_open_in_memory())?;
    lift(sql_pragma_text(&conn, "foreign_keys", "ON"))?;
    run_migrations(&conn)?;
    Ok(conn)
}

/// Like [`open_in_memory`], keying the connection with `key_hex` first.
pub fn open_in_memory_keyed(key_hex: &str) -> (r: Result<rusqlite::Connection, AppError>)
    ensures
        r matches Err(e) ==> e matches AppError::Database(_),
{
    let conn = lift(sql_open_in_memory())?;
    let pragma = key_pragma(key_hex);
    lift(sql_execute_batch(&conn, pragma.as_str()))?;
    lift(sql_pragma_text(&conn, "foreign_keys", "ON"))?;
    run_migrations(&conn)?;
    Ok(conn)
}


/// Once a migration's version is stored, running migrations again skips it.
pub proof fn lemma_recorded_migration_is_skipped(version: Seq<char>)
    ensures
        chars_le(version, version),
    decreases version.len(),
{
    if version.len() > 0 {
        lemma_recorded_migration_is_skipped(version.drop_first());
    }
}

} // verus!
