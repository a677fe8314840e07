//! The SQLite connection and error types of `rusqlite`, and the statements the
//! vault runs against them. What a query returns depends on what is stored,
//! so each statement promises only what holds of every outcome: the rows it
//! returns satisfy its `WHERE` clause and come in its `ORDER BY` order.

use vstd::prelude::*;
use rusqlite::OptionalExtension;
use vstd::utf8::encode_utf8;

use crate::models::{Project, SecretMeta, Tag};

verus! {

#[verifier::external_type_specification]
#[verifier::external_body]
pub struct ExConnection(rusqlite::Connection);

#[verifier::external_type_specification]
#[verifier::external_body]
pub struct ExSqlError(rusqlite::Error);

/// A `secrets` row, value still encrypted.
#[derive(Debug)]
pub struct SecretRow {
    pub id: String,
    pub project_id: String,
    pub key: String,
    pub value_encrypted: Vec<u8>,
    pub description: Option<String>,
    pub created_at: i64,
    pub updated_at: i64,
}

/// How a failed statement failed, as far as the vault distinguishes.
pub enum SqlErrorKind {
    /// A UNIQUE (or other) constraint was violated.
    ConstraintViolation,
    Other,
}

// ---------------------------------------------------------------------------
// Order of `ORDER BY ... COLLATE NOCASE`
// ---------------------------------------------------------------------------

/// The bytes SQLite's NOCASE collation compares: UTF-8 with ASCII `A`-`Z`
/// folded to lower case.
pub open spec fn nocase_key(s: Seq<char>) -> Seq<u8> {
    encode_utf8(s).map_values(|b: u8| if 65 <= b <= 90 { (b + 32) as u8 } else { b })
}

/// Byte-wise lexicographic order (`memcmp`, then the shorter first).
pub open spec fn bytes_le(a: Seq<u8>, b: Seq<u8>) -> bool
    decreases a.len(),
{
    if a.len() == 0 {
        true
    } else if b.len() == 0 {
        false
    } else if a[0] != b[0] {
        a[0] < b[0]
    } else {
        bytes_le(a.drop_first(), b.drop_first())
    }
}

/// `s` holds no NUL character.
pub open spec fn nul_free(s: Seq<char>) -> bool {
    forall|k: int| 0 <= k < s.len() ==> (s[k] as u32) != 0
}

/// `names` is in `COLLATE NOCASE` order, as far as names without a NUL
/// character go: SQLite's NOCASE comparison stops at a NUL, so names that
/// differ only past one tie and may come back in either order.
pub open spec fn sorted_nocase(names: Seq<Seq<char>>) -> bool {
    forall|i: int, j: int| 0 <= i < j < names.len() && nul_free(#[trigger] names[i]) && nul_free(#[trigger] names[j])
        ==> bytes_le(nocase_key(names[i]), nocase_key(names[j]))
}

/// `c` with ASCII `A`-`Z` folded to lower case.
pub open spec fn fold_ascii(c: char) -> char {
    if 'A' <= c && c <= 'Z' {
        ((c as int) + 32) as char
    } else {
        c
    }
}

/// `q` occurs in `text` at position `i`, ASCII letters compared without
/// regard to case.
pub open spec fn occurs_at(text: Seq<char>, q: Seq<char>, i: int) -> bool {
    &&& 0 <= i
    &&& i + q.len() <= text.len()
    &&& forall|k: int| 0 <= k < q.len() ==> fold_ascii(#[trigger] text[i + k]) == fold_ascii(q[k])
}

/// `text` contains `q`, ASCII letters compared without regard to case.
pub open spec fn contains_nocase(text: Seq<char>, q: Seq<char>) -> bool {
    exists|i: int| #[trigger] occurs_at(text, q, i)
}

/// `q` with each `%`, `_` and `\` preceded by the escape character `\`.
pub open spec fn spec_like_escape(q: Seq<char>) -> Seq<char>
    decreases q.len(),
{
    if q.len() == 0 {
        seq![]
    } else {
        let c = q.last();
        let rest = spec_like_escape(q.drop_last());
        if c == '%' || c == '_' || c == '\\' {
            rest.push('\\').push(c)
        } else {
            rest.push(c)
        }
    }
}

/// The `LIKE ... ESCAPE '\'` pattern that matches text containing `q`.
pub open spec fn spec_contains_pattern(q: Seq<char>) -> Seq<char> {
    seq!['%'] + spec_like_escape(q) + seq!['%']
}

/// The text `IFNULL(description, '')` gives.
pub open spec fn description_text(d: Option<String>) -> Seq<char> {
    match d {
        Some(s) => s@,
        None => Seq::empty(),
    }
}

/// `m`'s key or description contains `q`, without regard to ASCII case.
pub open spec fn meta_contains(m: SecretMeta, q: Seq<char>) -> bool {
    contains_nocase(m.key@, q) || contains_nocase(description_text(m.description), q)
}

pub open spec fn project_names(ps: Seq<Project>) -> Seq<Seq<char>> {
    ps.map_values(|p: Project| p.name@)
}

pub open spec fn meta_keys(ms: Seq<SecretMeta>) -> Seq<Seq<char>> {
    ms.map_values(|m: SecretMeta| m.key@)
}

pub open spec fn tag_names(ts: Seq<Tag>) -> Seq<Seq<char>> {
    ts.map_values(|t: Tag| t.name@)
}

pub open spec fn string_views(ss: Seq<String>) -> Seq<Seq<char>> {
    ss.map_values(|s: String| s@)
}

// ---------------------------------------------------------------------------
// Connections and plain statements
// ---------------------------------------------------------------------------

/// `Connection::open_in_memory`.
#[verifier::external_body]
pub(crate) fn sql_open_in_memory() -> (r: Result<rusqlite::Connection, rusqlite::Error>) {
    rusqlite::Connection::open_in_memory()
}

/// `Connection::open`: open (creating if needed) the database file at `path`.
#[verifier::external_body]
pub(crate) fn sql_open(path: &str) -> (r: Result<rusqlite::Connection, rusqlite::Error>) {
    rusqlite::Connection::open(path)
}

/// `Connection::execute_batch`: run the statements in `sql`.
#[verifier::external_body]
pub(crate) fn sql_execute_batch(conn: &rusqlite::Connection, sql: &str) -> (r: Result<(), rusqlite::Error>) {
    conn.execute_batch(sql)
}

/// `Connection::pragma_update` with a text value.
#[verifier::external_body]
pub(crate) fn sql_pragma_text(conn: &rusqlite::Connection, name: &str, value: &str) -> (r: Result<(), rusqlite::Error>) {
    conn.pragma_update(None, name, value)
}

/// `Connection::pragma_update` with an integer value.
#[verifier::external_body]
pub(crate) fn sql_pragma_int(conn: &rusqlite::Connection, name: &str, value: i64) -> (r: Result<(), rusqlite::Error>) {
    conn.pragma_update(None, name, value)
}

/// Tell a constraint violation (`SqliteFailure` with `ConstraintViolation`)
/// apart from any other error.
#[verifier::external_body]
pub(crate) fn sql_error_kind(e: &rusqlite::Error) -> (k: SqlErrorKind) {
    match e {
        rusqlite::Error::SqliteFailure(f, _) if f.code == rusqlite::ErrorCode::ConstraintViolation => SqlErrorKind::ConstraintViolation,
        _ => SqlErrorKind::Other,
    }
}

// ---------------------------------------------------------------------------
// vault_meta
// ---------------------------------------------------------------------------

/// Whether the `vault_meta` table exists.
#[verifier::external_body]
pub(crate) fn sql_meta_table_exists(conn: &rusqlite::Connection) -> (r: Result<bool, rusqlite::Error>) {
    conn.query_row("SELECT 1 FROM sqlite_master WHERE type='table' AND name='vault_meta'", [], |_| Ok(true))
}

/// The `vault_meta` value stored under `key` (`QueryReturnedNoRows` if none).
#[verifier::external_body]
pub(crate) fn sql_meta_value(conn: &rusqlite::Connection, key: &str) -> (r: Result<String, rusqlite::Error>) {
    conn.query_row("SELECT value FROM vault_meta WHERE key=?1", [key], |r| r.get(0))
}

/// Insert or replace the `db_version` row of `vault_meta`.
#[verifier::external_body]
pub(crate) fn sql_set_db_version(conn: &rusqlite::Connection, version: &str) -> (r: Result<usize, rusqlite::Error>) {
    conn.execute(
        "INSERT INTO vault_meta(key, value) VALUES('db_version', ?1)
         ON CONFLICT(key) DO UPDATE SET value = excluded.value",
        [version],
    )
}

// ---------------------------------------------------------------------------
// projects
// ---------------------------------------------------------------------------

/// Insert a project row.
#[verifier::external_body]
pub(crate) fn sql_insert_project(conn: &rusqlite::Connection, id: &str, name: &str, description: Option<&str>, now: i64) -> (r: Result<usize, rusqlite::Error>) {
    conn.execute(
        "INSERT INTO projects(id, name, description, created_at, updated_at) VALUES(?1, ?2, ?3, ?4, ?4)",
        (id, name, description, now),
    )
}

/// The project with id `id`, if any.
#[verifier::external_body]
pub(crate) fn sql_project_by_id(conn: &rusqlite::Connection, id: &str) -> (r: Result<Option<Project>, rusqlite::Error>)
    ensures
        r matches Ok(Some(p)) ==> p.id@ == id@,
{
    conn.query_row(
        "SELECT id, name, description, created_at, updated_at FROM projects WHERE id = ?1",
        [id],
        |r| Ok(Project { id: r.get(0)?, name: r.get(1)?, description: r.get(2)?, created_at: r.get(3)?, updated_at: r.get(4)? }),
    ).optional()
}

/// The project named `name`, if any.
#[verifier::external_body]
pub(crate) fn sql_project_by_name(conn: &rusqlite::Connection, name: &str) -> (r: Result<Option<Project>, rusqlite::Error>)
    ensures
        r matches Ok(Some(p)) ==> p.name@ == name@,
{
    conn.query_row(
        "SELECT id, name, description, created_at, updated_at FROM projects WHERE name = ?1",
        [name],
        |r| Ok(Project { id: r.get(0)?, name: r.get(1)?, description: r.get(2)?, created_at: r.get(3)?, updated_at: r.get(4)? }),
    ).optional()
}

/// All projects, ordered by name without regard to ASCII case.
#[verifier::external_body]
pub(crate) fn sql_list_projects(conn: &rusqlite::Connection) -> (r: Result<Vec<Project>, rusqlite::Error>)
    ensures
        r matches Ok(ps) ==> sorted_nocase(project_names(ps@)),
{
    let mut stmt = conn.prepare("SELECT id, name, description, created_at, updated_at FROM projects ORDER BY name COLLATE NOCASE")?;
    let rows = stmt.query_map([], |r| Ok(Project { id: r.get(0)?, name: r.get(1)?, description: r.get(2)?, created_at: r.get(3)?, updated_at: r.get(4)? }))?;
    rows.collect()
}

/// Set a project's name, description and update time.
#[verifier::external_body]
pub(crate) fn sql_update_project(conn: &rusqlite::Connection, id: &str, name: &str, description: Option<&str>, now: i64) -> (r: Result<usize, rusqlite::Error>) {
    conn.execute("UPDATE projects SET name = ?1, description = ?2, updated_at = ?3 WHERE id = ?4", (name, description, now, id))
}

/// Delete the project with id `id` (its secrets go with it); the number of rows deleted.
#[verifier::external_body]
pub(crate) fn sql_delete_project(conn: &rusqlite::Connection, id: &str) -> (r: Result<usize, rusqlite::Error>) {
    conn.execute("DELETE FROM projects WHERE id = ?1", [id])
}

// ---------------------------------------------------------------------------
// secrets
// ---------------------------------------------------------------------------

/// Insert a secret row.
#[verifier::external_body]
pub(crate) fn sql_insert_secret(conn: &rusqlite::Connection, id: &str, project_id: &str, key: &str, value_encrypted: &[u8], description: Option<&str>, now: i64) -> (r: Result<usize, rusqlite::Error>) {
    conn.execute(
        "INSERT INTO secrets(id, project_id, key, value_encrypted, description, created_at, updated_at) VALUES(?1, ?2, ?3, ?4, ?5, ?6, ?6)",
        (id, project_id, key, value_encrypted, description, now),
    )
}

/// The secret row with id `id`, if any.
#[verifier::external_body]
pub(crate) fn sql_secret_by_id(conn: &rusqlite::Connection, id: &str) -> (r: Result<Option<SecretRow>, rusqlite::Error>)
    ensures
        r matches Ok(Some(row)) ==> row.id@ == id@,
{
    conn.query_row(
        "SELECT id, project_id, key, value_encrypted, description, created_at, updated_at FROM secrets WHERE id = ?1",
        [id],
        |r| Ok(SecretRow { id: r.get(0)?, project_id: r.get(1)?, key: r.get(2)?, value_encrypted: r.get(3)?, description: r.get(4)?, created_at: r.get(5)?, updated_at: r.get(6)? }),
    ).optional()
}

/// The id of the secret with key `key` in project `project_id`, if any.
#[verifier::external_body]
pub(crate) fn sql_secret_id_by_key(conn: &rusqlite::Connection, project_id: &str, key: &str) -> (r: Result<Option<String>, rusqlite::Error>) {
    conn.query_row("SELECT id FROM secrets WHERE project_id = ?1 AND key = ?2", (project_id, key), |r| r.get::<_, String>(0)).optional()
}

/// The secrets of project `project_id` (tags left empty), ordered by key
/// without regard to ASCII case.
#[verifier::external_body]
pub(crate) fn sql_list_secret_metas(conn: &rusqlite::Connection, project_id: &str) -> (r: Result<Vec<SecretMeta>, rusqlite::Error>)
    ensures
        r matches Ok(ms) ==> sorted_nocase(meta_keys(ms@)),
        r matches Ok(ms) ==> forall|i: int| 0 <= i < ms@.len() ==> (#[trigger] ms@[i]).project_id@ == project_id@ && ms@[i].tags@.len() == 0,
{
    let mut stmt = conn.prepare(
        "SELECT id, project_id, key, description, created_at, updated_at FROM secrets WHERE project_id = ?1 ORDER BY key COLLATE NOCASE",
    )?;
    let rows = stmt.query_map([project_id], |r| Ok(SecretMeta { id: r.get(0)?, project_id: r.get(1)?, key: r.get(2)?, description: r.get(3)?, tags: Vec::new(), created_at: r.get(4)?, updated_at: r.get(5)? }))?;
    rows.collect()
}

/// Secrets whose key or description is `LIKE` `pattern` with `\` as the
/// escape character (tags left empty), ordered by key without regard to ASCII
/// case. `LIKE` folds ASCII case only, and reads text up to its first NUL; a
/// pattern `%<q escaped>%` matches exactly the text containing `q`.
#[verifier::external_body]
pub(crate) fn sql_search_secret_metas(conn: &rusqlite::Connection, pattern: &str) -> (r: Result<Vec<SecretMeta>, rusqlite::Error>)
    ensures
        r matches Ok(ms) ==> sorted_nocase(meta_keys(ms@)),
        r matches Ok(ms) ==> forall|q: Seq<char>| #![trigger spec_contains_pattern(q)]
            pattern@ == spec_contains_pattern(q) && nul_free(q)
                ==> forall|i: int| 0 <= i < ms@.len() ==> meta_contains(#[trigger] ms@[i], q),
        r matches Ok(ms) ==> forall|i: int| 0 <= i < ms@.len() ==> (#[trigger] ms@[i]).tags@.len() == 0,
{
    let mut stmt = conn.prepare(
        "SELECT id, project_id, key, description, created_at, updated_at FROM secrets WHERE (key LIKE ?1 ESCAPE '\\' OR IFNULL(description,'') LIKE ?1 ESCAPE '\\') ORDER BY key COLLATE NOCASE",
    )?;
    let rows = stmt.query_map([pattern], |r| Ok(SecretMeta { id: r.get(0)?, project_id: r.get(1)?, key: r.get(2)?, description: r.get(3)?, tags: Vec::new(), created_at: r.get(4)?, updated_at: r.get(5)? }))?;
    rows.collect()
}

/// Like [`sql_search_secret_metas`], within project `project_id` only.
#[verifier::external_body]
pub(crate) fn sql_search_secret_metas_in(conn: &rusqlite::Connection, pattern: &str, project_id: &str) -> (r: Result<Vec<SecretMeta>, rusqlite::Error>)
    ensures
        r matches Ok(ms) ==> sorted_nocase(meta_keys(ms@)),
        r matches Ok(ms) ==> forall|q: Seq<char>| #![trigger spec_contains_pattern(q)]
            pattern@ == spec_contains_pattern(q) && nul_free(q)
                ==> forall|i: int| 0 <= i < ms@.len() ==> meta_contains(#[trigger] ms@[i], q),
        r matches Ok(ms) ==> forall|i: int| 0 <= i < ms@.len() ==> (#[trigger] ms@[i]).project_id@ == project_id@ && ms@[i].tags@.len() == 0,
{
    let mut stmt = conn.prepare(
        "SELECT id, project_id, key, description, created_at, updated_at FROM secrets WHERE (key LIKE ?1 ESCAPE '\\' OR IFNULL(description,'') LIKE ?1 ESCAPE '\\') AND project_id = ?2 ORDER BY key COLLATE NOCASE",
    )?;
    let rows = stmt.query_map([pattern, project_id], |r| Ok(SecretMeta { id: r.get(0)?, project_id: r.get(1)?, key: r.get(2)?, description: r.get(3)?, tags: Vec::new(), created_at: r.get(4)?, updated_at: r.get(5)? }))?;
    rows.collect()
}

/// Set a secret's key, encrypted value, description and update time.
#[verifier::external_body]
pub(crate) fn sql_update_secret(conn: &rusqlite::Connection, id: &str, key: &str, value_encrypted: &[u8], description: Option<&str>, now: i64) -> (r: Result<usize, rusqlite::Error>) {
    conn.execute(
        "UPDATE secrets SET key = ?1, value_encrypted = ?2, description = ?3, updated_at = ?4 WHERE id = ?5",
        (key, value_encrypted, description, now, id),
    )
}

/// Delete the secret with id `id`; the number of rows deleted.
#[verifier::external_body]
pub(crate) fn sql_delete_secret(conn: &rusqlite::Connection, id: &str) -> (r: Result<usize, rusqlite::Error>) {
    conn.execute("DELETE FROM secrets WHERE id = ?1", [id])
}

// ---------------------------------------------------------------------------
// tags
// ---------------------------------------------------------------------------

/// Remove every tag link of secret `secret_id`.
#[verifier::external_body]
pub(crate) fn sql_clear_secret_tags(conn: &rusqlite::Connection, secret_id: &str) -> (r: Result<usize, rusqlite::Error>) {
    conn.execute("DELETE FROM secret_tags WHERE secret_id = ?1", [secret_id])
}

/// Insert a tag row unless one with that name exists.
#[verifier::external_body]
pub(crate) fn sql_insert_tag_if_absent(conn: &rusqlite::Connection, id: &str, name: &str) -> (r: Result<usize, rusqlite::Error>) {
    conn.execute("INSERT OR IGNORE INTO tags(id, name) VALUES(?1, ?2)", [id, name])
}

/// The id of the tag named `name` (`QueryReturnedNoRows` if none).
#[verifier::external_body]
pub(crate) fn sql_tag_id_by_name(conn: &rusqlite::Connection, name: &str) -> (r: Result<String, rusqlite::Error>) {
    conn.query_row("SELECT id FROM tags WHERE name = ?1", [name], |r| r.get(0))
}

/// Link a secret to a tag unless already linked.
#[verifier::external_body]
pub(crate) fn sql_link_secret_tag(conn: &rusqlite::Connection, secret_id: &str, tag_id: &str) -> (r: Result<usize, rusqlite::Error>) {
    conn.execute("INSERT OR IGNORE INTO secret_tags(secret_id, tag_id) VALUES(?1, ?2)", [secret_id, tag_id])
}

/// Delete tags that no secret references.
#[verifier::external_body]
pub(crate) fn sql_prune_orphan_tags(conn: &rusqlite::Connection) -> (r: Result<usize, rusqlite::Error>) {
    conn.execute("DELETE FROM tags WHERE id NOT IN (SELECT DISTINCT tag_id FROM secret_tags)", [])
}

/// The tag names of secret `secret_id`, ordered without regard to ASCII case.
#[verifier::external_body]
pub(crate) fn sql_tags_for_secret(conn: &rusqlite::Connection, secret_id: &str) -> (r: Result<Vec<String>, rusqlite::Error>)
    ensures
        r matches Ok(ts) ==> sorted_nocase(string_views(ts@)),
{
    let mut stmt = conn.prepare(
        "SELECT t.name FROM tags t JOIN secret_tags st ON st.tag_id = t.id WHERE st.secret_id = ?1 ORDER BY t.name COLLATE NOCASE",
    )?;
    let rows = stmt.query_map([secret_id], |r| r.get::<_, String>(0))?;
    rows.collect()
}

/// All tags, ordered by name without regard to ASCII case.
#[verifier::external_body]
pub(crate) fn sql_list_tags(conn: &rusqlite::Connection) -> (r: Result<Vec<Tag>, rusqlite::Error>)
    ensures
        r matches Ok(ts) ==> sorted_nocase(tag_names(ts@)),
{
    let mut stmt = conn.prepare("SELECT id, name FROM tags ORDER BY name COLLATE NOCASE")?;
    let rows = stmt.query_map([], |r| Ok(Tag { id: r.get(0)?, name: r.get(1)? }))?;
    rows.collect()
}

/// Delete the tag with id `id`; the number of rows deleted.
#[verifier::external_body]
pub(crate) fn sql_delete_tag(conn: &rusqlite::Connection, id: &str) -> (r: Result<usize, rusqlite::Error>) {
    conn.execute("DELETE FROM tags WHERE id = ?1", [id])
}

} // verus!
