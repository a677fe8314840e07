//! Data access for projects, secrets and tags.
//!
//! Secret values are encrypted with the vault key on write and decrypted on
//! read. The database is SQLite: what a query returns depends on what is
//! stored, so these functions state what they check and compute themselves,
//! and what holds of every row the database hands back.

use vstd::prelude::*;
use vstd::string::StringExecFns;
use vstd::utf8::{decode_utf8, encode_utf8, valid_utf8};

use crate::crypto::{self, spec_decrypt, KEY_LEN};
use crate::db::{lift, now_ms};
use crate::encoding::{hex_digit_lower, spec_hex_lower};
use crate::error::AppError;
use crate::models::{Project, Secret, SecretMeta, Tag};
use crate::sqlite::{
    meta_contains, meta_keys, project_names, spec_contains_pattern, spec_like_escape, sorted_nocase, sql_clear_secret_tags, sql_delete_project, sql_delete_secret,
    sql_delete_tag, sql_error_kind, sql_insert_project, sql_insert_secret, sql_insert_tag_if_absent,
    sql_link_secret_tag, sql_list_projects, sql_list_secret_metas, sql_list_tags, sql_project_by_id,
    sql_project_by_name, sql_prune_orphan_tags, sql_search_secret_metas, sql_search_secret_metas_in,
    sql_secret_by_id, sql_secret_id_by_key, sql_tag_id_by_name, sql_tags_for_secret, sql_update_project,
    sql_update_secret, string_views, tag_names, SecretRow, SqlErrorKind, nul_free, bytes_le, nocase_key,
};
use crate::text::{concat2, concat3, push_char, spec_trim, string_from_utf8, trim};
use vstd::string::StrSliceExecFns;

verus! {

/// `bytes` with the UUID version set to 4 (random) and the RFC 4122 variant
/// bits set.
pub open spec fn uuid_v4_bytes(bytes: Seq<u8>) -> Seq<u8> {
    bytes.update(6, (bytes[6] & 0x0f) | 0x40).update(8, (bytes[8] & 0x3f) | 0x80)
}

/// The hyphenated lower-case text of the version-4 UUID built from `bytes`:
/// their hex in groups of 8, 4, 4, 4 and 12 digits.
pub open spec fn spec_uuid_text(bytes: Seq<u8>) -> Seq<char> {
    let h = spec_hex_lower(uuid_v4_bytes(bytes));
    h.subrange(0, 8) + seq!['-'] + h.subrange(8, 12) + seq!['-'] + h.subrange(12, 16) + seq!['-']
        + h.subrange(16, 20) + seq!['-'] + h.subrange(20, 32)
}

/// `uuid::Builder::from_random_bytes(bytes).into_uuid().to_string()`: the
/// bytes with the version (4) and variant bits set, in hyphenated lower-case
/// form (`xxxxxxxx-xxxx-4xxx-xxxx-xxxxxxxxxxxx`).
#[verifier::external_body]
fn uuid_from_random_bytes(bytes: &[u8; 16]) -> (id: String)
    ensures
        id@ == spec_uuid_text(bytes@),
{
    uuid::Builder::from_random_bytes(*bytes).into_uuid().to_string()
}

/// A fresh random version-4 id in hyphenated form, from 16 random bytes.
fn new_id() -> (r: Result<String, AppError>)
    ensures
        r matches Ok(id) ==> id@.len() == 36 && id@[8] == '-' && id@[13] == '-' && id@[18] == '-' && id@[23] == '-' && id@[14] == '4',
        r matches Ok(id) ==> exists|b: Seq<u8>| b.len() == 16 && id@ == #[trigger] spec_uuid_text(b),
        r matches Err(e) ==> e matches AppError::Crypto(_),
{
    let bytes = crypto::random_bytes(16)?;
    let arr = crypto::to_array::<16>(bytes.as_slice());
    let id = uuid_from_random_bytes(&arr);
    proof {
        let b = arr@;
        let v = uuid_v4_bytes(b);
        let h = spec_hex_lower(v);
        let b6 = b[6];
        assert(((b6 & 0x0f) | 0x40) / 16 == 4) by (bit_vector);
        assert(v[6] == (b6 & 0x0f) | 0x40);
        assert(h[12] == hex_digit_lower((v[6] / 16) as int));
        assert(id@[14] == h[12]);
        assert(id@[8] == '-' && id@[13] == '-' && id@[18] == '-' && id@[23] == '-');
        assert(id@.len() == 36);
    }
    Ok(id)
}

/// The error for a failed write of `what`: a constraint violation (the
/// UNIQUE name or key) becomes `AlreadyExists(what)`, any other failure stays
/// a database error.
pub fn map_unique(what: String, kind: SqlErrorKind, e: rusqlite::Error) -> (err: AppError)
    ensures
        kind is ConstraintViolation ==> (err matches AppError::AlreadyExists(w) && w == what),
        kind is Other ==> err matches AppError::Database(_),
{
    match kind {
        SqlErrorKind::ConstraintViolation => AppError::AlreadyExists(what),
        SqlErrorKind::Other => AppError::Database(e),
    }
}

/// A required name: trimmed, and refused when nothing is left.
pub fn required_name(raw: &str, message: &str) -> (r: Result<String, AppError>)
    ensures
        spec_trim(raw@).len() == 0 <==> r is Err,
        r matches Ok(n) ==> n@ == spec_trim(raw@),
        r matches Err(e) ==> e matches AppError::Invalid(m) && m@ == message@,
{
    let t = trim(raw);
    if t.is_empty() {
        return Err(AppError::invalid(message));
    }
    Ok(String::from_str(t))
}

/// An optional description as an owned string.
fn owned_description(d: Option<&str>) -> (o: Option<String>)
    ensures
        d is None <==> o is None,
        d matches Some(x) ==> o matches Some(y) && y@ == x@,
{
    match d {
        Some(s) => Some(String::from_str(s)),
        None => None,
    }
}

/// An optional owned description as a borrowed one.
fn borrowed_description(d: &Option<String>) -> (o: Option<&str>)
    ensures
        d is None <==> o is None,
        d matches Some(x) ==> o matches Some(y) && y@ == x@,
{
    match d {
        Some(s) => Some(s.as_str()),
        None => None,
    }
}

// ---------------------------------------------------------------------------
// Projects
// ---------------------------------------------------------------------------

/// Create a project named `name` (trimmed). A duplicate name is refused with
/// `AlreadyExists`.
pub fn create_project(conn: &rusqlite::Connection, name: &str, description: Option<&str>) -> (r: Result<Project, AppError>)
    ensures
        spec_trim(name@).len() == 0 <==> r matches Err(AppError::Invalid(_)),
        r matches Err(AppError::AlreadyExists(w)) ==> w@ == "project '"@ + spec_trim(name@) + "'"@,
        r matches Err(e) ==> (e matches AppError::Invalid(_) || e matches AppError::AlreadyExists(_)
            || e matches AppError::NotFound(_) || e matches AppError::Database(_) || e matches AppError::Crypto(_)),
        r matches Ok(p) ==> p.id@.len() == 36,
{
    let name = required_name(name, "project name must not be empty")?;
    let id = new_id()?;
    let now = now_ms();
    match sql_insert_project(conn, id.as_str(), name.as_str(), description, now) {
        Ok(_) => {},
        Err(e) => {
            let kind = sql_error_kind(&e);
            return Err(map_unique(concat3("project '", name.as_str(), "'"), kind, e));
        },
    }
    get_project(conn, id.as_str())
}

/// Look up a project by its (unique) name, trimmed.
pub fn get_project_by_name(conn: &rusqlite::Connection, name: &str) -> (r: Result<Option<Project>, AppError>)
    ensures
        r matches Ok(Some(p)) ==> p.name@ == spec_trim(name@),
        r matches Err(e) ==> e matches AppError::Database(_),
{
    lift(sql_project_by_name(conn, trim(name)))
}

/// All projects, ordered by name without regard to ASCII case.
pub fn list_projects(conn: &rusqlite::Connection) -> (r: Result<Vec<Project>, AppError>)
    ensures
        r matches Ok(ps) ==> sorted_nocase(project_names(ps@)),
        r matches Err(e) ==> e matches AppError::Database(_),
{
    lift(sql_list_projects(conn))
}

/// The project with id `id`, or `NotFound("project <id>")`.
pub fn get_project(conn: &rusqlite::Connection, id: &str) -> (r: Result<Project, AppError>)
    ensures
        r matches Ok(p) ==> p.id@ == id@,
        r matches Err(AppError::NotFound(m)) ==> m@ == "project "@ + id@,
        r matches Err(e) ==> (e matches AppError::NotFound(_) || e matches AppError::Database(_)),
{
    match lift(sql_project_by_id(conn, id))? {
        Some(p) => Ok(p),
        None => Err(AppError::NotFound(concat2("project ", id))),
    }
}

/// The name and description a project update writes: a given name is trimmed
/// and must not be empty; a given description (even `None`) replaces the old
/// one; what is not given is kept.
pub fn merge_project_fields(existing: Project, name: Option<&str>, description: Option<Option<&str>>) -> (r: Result<(String, Option<String>), AppError>)
    ensures
        r matches Err(e) <==> (name matches Some(n) && spec_trim(n@).len() == 0),
        r matches Err(e) ==> e matches AppError::Invalid(_),
        r matches Ok((n, d)) ==> {
            &&& (name matches Some(given) ==> n@ == spec_trim(given@))
            &&& (name is None ==> n == existing.name)
            &&& (description matches Some(Some(given)) ==> d matches Some(x) && x@ == given@)
            &&& (description matches Some(None) ==> d is None)
            &&& (description is None ==> d == existing.description)
        },
{
    let new_name = match name {
        Some(n) => required_name(n, "project name must not be empty")?,
        None => existing.name,
    };
    let new_desc = match description {
        Some(d) => owned_description(d),
        None => existing.description,
    };
    Ok((new_name, new_desc))
}

/// Rename and/or re-describe the project with id `id`.
pub fn update_project(conn: &rusqlite::Connection, id: &str, name: Option<&str>, description: Option<Option<&str>>) -> (r: Result<Project, AppError>)
    ensures
        r matches Ok(p) ==> p.id@ == id@,
        r matches Ok(p) ==> {
            &&& (name matches Some(given) ==> p.name@ == spec_trim(given@))
            &&& (description matches Some(Some(given)) ==> p.description matches Some(x) && x@ == given@)
            &&& (description matches Some(None) ==> p.description is None)
        },
        r matches Err(AppError::Invalid(_)) ==> name matches Some(n) && spec_trim(n@).len() == 0,
        name is Some ==> (r matches Err(AppError::AlreadyExists(w)) ==> w@ == "project '"@ + spec_trim(name->0@) + "'"@),
        r matches Err(e) ==> (e matches AppError::Invalid(_) || e matches AppError::AlreadyExists(_)
            || e matches AppError::NotFound(_) || e matches AppError::Database(_) || e matches AppError::Crypto(_)),
{
    let existing = get_project(conn, id)?;
    let (new_name, new_desc) = merge_project_fields(existing, name, description)?;
    let now = now_ms();
    match sql_update_project(conn, id, new_name.as_str(), borrowed_description(&new_desc), now) {
        Ok(_) => {},
        Err(e) => {
            let kind = sql_error_kind(&e);
            return Err(map_unique(concat3("project '", new_name.as_str(), "'"), kind, e));
        },
    }
    let stored = get_project(conn, id)?;
    Ok(Project {
        id: stored.id,
        name: new_name,
        description: new_desc,
        created_at: stored.created_at,
        updated_at: stored.updated_at,
    })
}

/// What a delete by id answers, given the number of rows it removed: nothing
/// removed means no row had that id, `NotFound(what + id)`.
pub fn deletion_result(removed: usize, what: &str, id: &str) -> (r: Result<(), AppError>)
    ensures
        r is Ok <==> removed > 0,
        r matches Err(e) ==> (e matches AppError::NotFound(m) && m@ == what@ + id@),
{
    if removed == 0 {
        return Err(AppError::NotFound(concat2(what, id)));
    }
    Ok(())
}

/// Delete the project with id `id` (its secrets go with it).
pub fn delete_project(conn: &rusqlite::Connection, id: &str) -> (r: Result<(), AppError>)
    ensures
        r matches Err(AppError::NotFound(m)) ==> m@ == "project "@ + id@,
        r matches Err(e) ==> (e matches AppError::NotFound(_) || e matches AppError::Database(_)),
{
    let n = lift(sql_delete_project(conn, id))?;
    deletion_result(n, "project ", id)
}

// ---------------------------------------------------------------------------
// Secret values
// ---------------------------------------------------------------------------

/// What [`open_value`] gives for `blob`: the UTF-8 text it decrypts to.
pub open spec fn spec_open_value(vault_key: Seq<u8>, blob: Seq<u8>) -> Option<Seq<char>> {
    match spec_decrypt(vault_key, blob) {
        Some(bytes) => if valid_utf8(bytes) {
            Some(decode_utf8(bytes))
        } else {
            None
        },
        None => None,
    }
}

/// Encrypt a secret value (its UTF-8 bytes) under the vault key.
pub fn seal_value(vault_key: &[u8; KEY_LEN], value: &str) -> (r: Result<Vec<u8>, AppError>)
    ensures
        r matches Ok(blob) ==> crypto::sealed_with(vault_key@, encode_utf8(value@), blob@)
            && spec_open_value(vault_key@, blob@) == Some(value@),
        r matches Err(e) ==> e matches AppError::Crypto(_),
{
    let blob = crypto::encrypt(vault_key, value.as_bytes())?;
    proof {
        vstd::utf8::encode_utf8_valid_utf8(value@);
        vstd::utf8::encode_utf8_decode_utf8(value@);
    }
    Ok(blob)
}

/// Decrypt a stored secret value back to text.
pub fn open_value(vault_key: &[u8; KEY_LEN], blob: &[u8]) -> (r: Result<String, AppError>)
    ensures
        r is Ok <==> spec_open_value(vault_key@, blob@) is Some,
        r matches Ok(v) ==> spec_open_value(vault_key@, blob@) == Some(v@),
        r matches Err(e) ==> e matches AppError::Crypto(_),
{
    let bytes = crypto::decrypt(vault_key, blob)?;
    match string_from_utf8(bytes) {
        Ok(s) => Ok(s),
        Err(_) => Err(AppError::crypto("decrypted value is not valid UTF-8")),
    }
}

/// A stored value, sealed by [`seal_value`], opens to the value that was sealed.
pub proof fn lemma_open_inverts_seal(vault_key: Seq<u8>, value: Seq<char>, blob: Seq<u8>)
    requires
        crypto::sealed_with(vault_key, encode_utf8(value), blob),
    ensures
        spec_open_value(vault_key, blob) == Some(value),
{
    vstd::utf8::encode_utf8_valid_utf8(value);
    vstd::utf8::encode_utf8_decode_utf8(value);
}

/// Assemble a secret from its stored row: decrypt the value under the vault
/// key and attach the tags.
pub fn secret_from_row(vault_key: &[u8; KEY_LEN], row: SecretRow, tags: Vec<String>) -> (r: Result<Secret, AppError>)
    ensures
        r is Ok <==> spec_open_value(vault_key@, row.value_encrypted@) is Some,
        r matches Ok(s) ==> {
            &&& spec_open_value(vault_key@, row.value_encrypted@) == Some(s.value@)
            &&& s.id == row.id
            &&& s.project_id == row.project_id
            &&& s.key == row.key
            &&& s.description == row.description
            &&& s.tags == tags
            &&& s.created_at == row.created_at
            &&& s.updated_at == row.updated_at
        },
        r matches Err(e) ==> e matches AppError::Crypto(_),
{
    let value = open_value(vault_key, row.value_encrypted.as_slice())?;
    Ok(Secret {
        id: row.id,
        project_id: row.project_id,
        key: row.key,
        value,
        description: row.description,
        tags,
        created_at: row.created_at,
        updated_at: row.updated_at,
    })
}


// ---------------------------------------------------------------------------
// Secrets
// ---------------------------------------------------------------------------

/// `b` is `a` with its tags replaced.
pub open spec fn same_meta_but_tags(a: SecretMeta, b: SecretMeta) -> bool {
    &&& b.id == a.id
    &&& b.project_id == a.project_id
    &&& b.key == a.key
    &&& b.description == a.description
    &&& b.created_at == a.created_at
    &&& b.updated_at == a.updated_at
}

/// Add a secret to project `project_id`. The key is trimmed and must not be
/// empty; the value is stored encrypted under the vault key; a duplicate key
/// in the project is refused with `AlreadyExists`.
pub fn add_secret(
    conn: &rusqlite::Connection,
    vault_key: &[u8; KEY_LEN],
    project_id: &str,
    key: &str,
    value: &str,
    description: Option<&str>,
    tags: &[String],
) -> (r: Result<Secret, AppError>)
    ensures
        spec_trim(key@).len() == 0 ==> r matches Err(AppError::Invalid(_)),
        r matches Err(AppError::Invalid(_)) ==> spec_trim(key@).len() == 0,
        (r matches Err(AppError::NotFound(_))) ==> spec_trim(key@).len() > 0,
        r matches Err(AppError::AlreadyExists(w)) ==> w@ == "secret '"@ + spec_trim(key@) + "'"@,
        r matches Err(e) ==> (e matches AppError::Invalid(_) || e matches AppError::AlreadyExists(_)
            || e matches AppError::NotFound(_) || e matches AppError::Database(_) || e matches AppError::Crypto(_)),
        r matches Ok(s) ==> s.id@.len() == 36 && sorted_nocase(string_views(s.tags@)),
        r matches Ok(s) ==> {
            &&& s.project_id@ == project_id@
            &&& s.key@ == spec_trim(key@)
            &&& s.value@ == value@
            &&& (description is None <==> s.description is None)
            &&& (description matches Some(given) ==> s.description matches Some(x) && x@ == given@)
        },
{
    let key = required_name(key, "secret key must not be empty")?;
    get_project(conn, project_id)?;
    let id = new_id()?;
    let now = now_ms();
    let enc = seal_value(vault_key, value)?;
    match sql_insert_secret(conn, id.as_str(), project_id, key.as_str(), enc.as_slice(), description, now) {
        Ok(_) => {},
        Err(e) => {
            let kind = sql_error_kind(&e);
            return Err(map_unique(concat3("secret '", key.as_str(), "'"), kind, e));
        },
    }
    set_tags(conn, id.as_str(), tags)?;
    let stored = get_secret(conn, vault_key, id.as_str())?;
    Ok(Secret {
        id: stored.id,
        project_id: String::from_str(project_id),
        key,
        value: String::from_str(value),
        description: owned_description(description),
        tags: stored.tags,
        created_at: stored.created_at,
        updated_at: stored.updated_at,
    })
}

/// The secret with id `id`, value decrypted under the vault key, or
/// `NotFound("secret <id>")`.
pub fn get_secret(conn: &rusqlite::Connection, vault_key: &[u8; KEY_LEN], id: &str) -> (r: Result<Secret, AppError>)
    ensures
        r matches Ok(s) ==> s.id@ == id@ && sorted_nocase(string_views(s.tags@)),
        r matches Ok(s) ==> exists|blob: Seq<u8>| spec_open_value(vault_key@, blob) == Some(s.value@),
        r matches Err(AppError::NotFound(m)) ==> m@ == "secret "@ + id@,
        r matches Err(e) ==> (e matches AppError::NotFound(_) || e matches AppError::Database(_) || e matches AppError::Crypto(_)),
{
    let row = match lift(sql_secret_by_id(conn, id))? {
        Some(row) => row,
        None => return Err(AppError::NotFound(concat2("secret ", id))),
    };
    let tags = tags_for_secret(conn, row.id.as_str())?;
    let ghost blob = row.value_encrypted@;
    let s = secret_from_row(vault_key, row, tags)?;
    assert(spec_open_value(vault_key@, blob) == Some(s.value@));
    Ok(s)
}

/// Find a secret's id within a project by its (trimmed) key.
pub fn get_secret_id_by_key(conn: &rusqlite::Connection, project_id: &str, key: &str) -> (r: Result<Option<String>, AppError>)
    ensures
        r matches Err(e) ==> e matches AppError::Database(_),
{
    lift(sql_secret_id_by_key(conn, project_id, trim(key)))
}

/// Fill in each secret's tags, keeping the order and every other field.
fn attach_tags(conn: &rusqlite::Connection, metas: Vec<SecretMeta>) -> (r: Result<Vec<SecretMeta>, AppError>)
    ensures
        r matches Ok(out) ==> {
            &&& out@.len() == metas@.len()
            &&& forall|i: int| 0 <= i < out@.len() ==> same_meta_but_tags(metas@[i], #[trigger] out@[i])
            &&& forall|i: int| 0 <= i < out@.len() ==> sorted_nocase(string_views((#[trigger] out@[i]).tags@))
        },
        r matches Err(e) ==> e matches AppError::Database(_),
{
    let ghost orig = metas@;
    let n = metas.len();
    let mut rest = metas;
    let mut reversed: Vec<SecretMeta> = Vec::new();
    while rest.len() > 0
        invariant
            n == orig.len(),
            rest@.len() + reversed@.len() == n,
            forall|k: int| 0 <= k < rest@.len() ==> #[trigger] rest@[k] == orig[k],
            forall|k: int| 0 <= k < reversed@.len() ==> same_meta_but_tags(orig[n - 1 - k], #[trigger] reversed@[k])
                && sorted_nocase(string_views(reversed@[k].tags@)),
        decreases rest@.len(),
    {
        let mut m = rest.pop().unwrap();
        let tags = tags_for_secret(conn, m.id.as_str())?;
        m.tags = tags;
        reversed.push(m);
    }
    let mut out: Vec<SecretMeta> = Vec::new();
    while reversed.len() > 0
        invariant
            n == orig.len(),
            reversed@.len() + out@.len() == n,
            forall|k: int| 0 <= k < reversed@.len() ==> same_meta_but_tags(orig[n - 1 - k], #[trigger] reversed@[k])
                && sorted_nocase(string_views(reversed@[k].tags@)),
            forall|k: int| 0 <= k < out@.len() ==> same_meta_but_tags(orig[k], #[trigger] out@[k])
                && sorted_nocase(string_views(out@[k].tags@)),
        decreases reversed@.len(),
    {
        let m = reversed.pop().unwrap();
        out.push(m);
    }
    Ok(out)
}

/// The secrets of a project (values omitted), ordered by key without regard
/// to ASCII case, each with its tags.
pub fn list_secrets(conn: &rusqlite::Connection, project_id: &str) -> (r: Result<Vec<SecretMeta>, AppError>)
    ensures
        r matches Ok(ms) ==> {
            &&& sorted_nocase(meta_keys(ms@))
            &&& forall|i: int| 0 <= i < ms@.len() ==> (#[trigger] ms@[i]).project_id@ == project_id@
            &&& forall|i: int| 0 <= i < ms@.len() ==> sorted_nocase(string_views((#[trigger] ms@[i]).tags@))
        },
        r matches Err(e) ==> e matches AppError::Database(_),
{
    let rows = lift(sql_list_secret_metas(conn, project_id))?;
    let ghost before = rows@;
    let out = attach_tags(conn, rows)?;
    proof {
        assert(meta_keys(out@) =~= meta_keys(before));
        assert forall|i: int| 0 <= i < out@.len() implies (#[trigger] out@[i]).project_id@ == project_id@ by {
            assert(before[i].project_id@ == project_id@);
        }
    }
    Ok(out)
}


/// The value, key and description a secret update writes: a given key is
/// trimmed and must not be empty; a given value replaces the old one; a given
/// description (even `None`) replaces the old one; what is not given is kept.
pub fn merge_secret_fields(existing: Secret, key: Option<&str>, value: Option<&str>, description: Option<Option<&str>>) -> (r: Result<(String, String, Option<String>), AppError>)
    ensures
        r is Err <==> (key matches Some(k) && spec_trim(k@).len() == 0),
        r matches Err(e) ==> e matches AppError::Invalid(_),
        r matches Ok((k, v, d)) ==> {
            &&& (key matches Some(given) ==> k@ == spec_trim(given@))
            &&& (key is None ==> k == existing.key)
            &&& (value matches Some(given) ==> v@ == given@)
            &&& (value is None ==> v == existing.value)
            &&& (description matches Some(Some(given)) ==> d matches Some(x) && x@ == given@)
            &&& (description matches Some(None) ==> d is None)
            &&& (description is None ==> d == existing.description)
        },
{
    let new_key = match key {
        Some(k) => required_name(k, "secret key must not be empty")?,
        None => existing.key,
    };
    let new_value = match value {
        Some(v) => String::from_str(v),
        None => existing.value,
    };
    let new_desc = match description {
        Some(d) => owned_description(d),
        None => existing.description,
    };
    Ok((new_key, new_value, new_desc))
}

/// Update a secret's key, value, description and/or tags. The value is
/// re-encrypted under a fresh nonce whether or not it changes.
pub fn update_secret(
    conn: &rusqlite::Connection,
    vault_key: &[u8; KEY_LEN],
    id: &str,
    key: Option<&str>,
    value: Option<&str>,
    description: Option<Option<&str>>,
    tags: Option<&[String]>,
) -> (r: Result<Secret, AppError>)
    ensures
        r matches Ok(s) ==> s.id@ == id@ && sorted_nocase(string_views(s.tags@)),
        r matches Ok(s) ==> {
            &&& (key matches Some(given) ==> s.key@ == spec_trim(given@))
            &&& (value matches Some(given) ==> s.value@ == given@)
            &&& (description matches Some(Some(given)) ==> s.description matches Some(x) && x@ == given@)
            &&& (description matches Some(None) ==> s.description is None)
        },
        r matches Err(AppError::Invalid(_)) ==> key matches Some(k) && spec_trim(k@).len() == 0,
        key is Some ==> (r matches Err(AppError::AlreadyExists(w)) ==> w@ == "secret '"@ + spec_trim(key->0@) + "'"@),
        r matches Err(e) ==> (e matches AppError::Invalid(_) || e matches AppError::AlreadyExists(_)
            || e matches AppError::NotFound(_) || e matches AppError::Database(_) || e matches AppError::Crypto(_)),
{
    let existing = get_secret(conn, vault_key, id)?;
    let (new_key, new_value, new_desc) = merge_secret_fields(existing, key, value, description)?;
    let new_enc = seal_value(vault_key, new_value.as_str())?;
    let now = now_ms();
    match sql_update_secret(conn, id, new_key.as_str(), new_enc.as_slice(), borrowed_description(&new_desc), now) {
        Ok(_) => {},
        Err(e) => {
            let kind = sql_error_kind(&e);
            return Err(map_unique(concat3("secret '", new_key.as_str(), "'"), kind, e));
        },
    }
    match tags {
        Some(t) => set_tags(conn, id, t)?,
        None => {},
    }
    let stored = get_secret(conn, vault_key, id)?;
    Ok(Secret {
        id: stored.id,
        project_id: stored.project_id,
        key: new_key,
        value: new_value,
        description: new_desc,
        tags: stored.tags,
        created_at: stored.created_at,
        updated_at: stored.updated_at,
    })
}

/// Delete the secret with id `id`.
pub fn delete_secret(conn: &rusqlite::Connection, id: &str) -> (r: Result<(), AppError>)
    ensures
        r matches Err(AppError::NotFound(m)) ==> m@ == "secret "@ + id@,
        r matches Err(e) ==> (e matches AppError::NotFound(_) || e matches AppError::Database(_)),
{
    let n = lift(sql_delete_secret(conn, id))?;
    deletion_result(n, "secret ", id)
}

/// `q` with each `%`, `_` and `\` escaped by a `\`, so that `LIKE` takes it
/// literally.
pub fn like_escape(q: &str) -> (e: String)
    ensures
        e@ == spec_like_escape(q@),
{
    let len = q.unicode_len();
    let mut out = String::new();
    let mut i: usize = 0;
    while i < len
        invariant
            len == q@.len(),
            0 <= i <= len,
            out@ == spec_like_escape(q@.take(i as int)),
        decreases len - i,
    {
        let c = q.get_char(i);
        proof {
            assert(q@.take(i + 1).drop_last() =~= q@.take(i as int));
            assert(q@.take(i + 1).last() == c);
        }
        if c == '%' || c == '_' || c == '\\' {
            push_char(&mut out, '\\');
        }
        push_char(&mut out, c);
        i = i + 1;
    }
    assert(q@.take(len as int) =~= q@);
    out
}

/// The trimmed query, escaped, between `%` wildcards.
pub open spec fn spec_search_pattern(query: Seq<char>) -> Seq<char> {
    spec_contains_pattern(spec_trim(query))
}

/// The `LIKE` pattern a search runs: it matches text containing the trimmed
/// query, `%` and `_` in it taken literally.
pub fn search_pattern(query: &str) -> (p: String)
    ensures
        p@ == spec_search_pattern(query@),
{
    let esc = like_escape(trim(query));
    let p = concat3("%", esc.as_str(), "%");
    proof {
        reveal_strlit("%");
        assert(p@ =~= spec_contains_pattern(spec_trim(query@)));
    }
    p
}

/// The tag names a search requires: none when no filter is given.
pub open spec fn wanted_tags(tags: Option<&[String]>) -> Seq<String> {
    match tags {
        Some(t) => t@,
        None => Seq::empty(),
    }
}

/// `tags` holds the name `name`.
pub open spec fn has_tag(tags: Seq<String>, name: Seq<char>) -> bool {
    exists|j: int| 0 <= j < tags.len() && (#[trigger] tags[j])@ == name
}

/// `tags` holds every name in `wanted`.
pub open spec fn has_all_tags(tags: Seq<String>, wanted: Seq<String>) -> bool {
    forall|i: int| 0 <= i < wanted.len() ==> has_tag(tags, (#[trigger] wanted[i])@)
}

/// The secrets of `metas` that carry all of `wanted`, in their order.
pub open spec fn spec_filter_tagged(metas: Seq<SecretMeta>, wanted: Seq<String>) -> Seq<SecretMeta>
    decreases metas.len(),
{
    if metas.len() == 0 {
        seq![]
    } else {
        let rest = spec_filter_tagged(metas.drop_last(), wanted);
        if has_all_tags(metas.last().tags@, wanted) {
            rest.push(metas.last())
        } else {
            rest
        }
    }
}

/// Whether `tags` contains `name`.
fn contains_tag(tags: &Vec<String>, name: &String) -> (b: bool)
    ensures
        b == has_tag(tags@, name@),
{
    let mut i: usize = 0;
    while i < tags.len()
        invariant
            0 <= i <= tags@.len(),
            forall|j: int| 0 <= j < i ==> (#[trigger] tags@[j])@ != name@,
        decreases tags@.len() - i,
    {
        if tags[i].eq(name) {
            return true;
        }
        i = i + 1;
    }
    false
}

/// Whether `tags` holds every name in `wanted`.
pub fn carries_all_tags(tags: &Vec<String>, wanted: &[String]) -> (b: bool)
    ensures
        b == has_all_tags(tags@, wanted@),
{
    let mut i: usize = 0;
    while i < wanted.len()
        invariant
            0 <= i <= wanted@.len(),
            forall|k: int| 0 <= k < i ==> has_tag(tags@, (#[trigger] wanted@[k])@),
        decreases wanted@.len() - i,
    {
        if !contains_tag(tags, &wanted[i]) {
            return false;
        }
        i = i + 1;
    }
    true
}

/// Keep the secrets that carry all of `wanted`, in order.
pub fn filter_tagged(metas: Vec<SecretMeta>, wanted: &[String]) -> (out: Vec<SecretMeta>)
    ensures
        out@ == spec_filter_tagged(metas@, wanted@),
{
    let ghost orig = metas@;
    let mut rest = metas;
    let mut kept_rev: Vec<SecretMeta> = Vec::new();
    while rest.len() > 0
        invariant
            spec_filter_tagged(orig, wanted@) == spec_filter_tagged(rest@, wanted@) + kept_rev@.reverse(),
        decreases rest@.len(),
    {
        let ghost before = rest@;
        let m = rest.pop().unwrap();
        proof {
            assert(before.drop_last() =~= rest@);
            assert(before.last() == m);
        }
        if carries_all_tags(&m.tags, wanted) {
            proof {
                assert(spec_filter_tagged(before, wanted@) == spec_filter_tagged(rest@, wanted@).push(m));
                assert(kept_rev@.push(m).reverse() =~= seq![m] + kept_rev@.reverse());
                assert(spec_filter_tagged(rest@, wanted@).push(m) + kept_rev@.reverse()
                    =~= spec_filter_tagged(rest@, wanted@) + (seq![m] + kept_rev@.reverse()));
            }
            kept_rev.push(m);
        }
    }
    let mut out: Vec<SecretMeta> = Vec::new();
    while kept_rev.len() > 0
        invariant
            spec_filter_tagged(orig, wanted@) == out@ + kept_rev@.reverse(),
        decreases kept_rev@.len(),
    {
        let ghost before = kept_rev@;
        let m = kept_rev.pop().unwrap();
        proof {
            assert(before =~= kept_rev@.push(m));
            assert(before.reverse() =~= seq![m] + kept_rev@.reverse());
            assert(out@.push(m) + kept_rev@.reverse() =~= out@ + before.reverse());
        }
        out.push(m);
    }
    proof {
        assert(out@ + kept_rev@.reverse() =~= out@);
    }
    out
}

/// Search secrets (values omitted) whose key or description contains the
/// trimmed query (ASCII case ignored, `%` and `_` taken literally), optionally
/// within one project and requiring all of `tags`. They come ordered by key
/// without regard to ASCII case, each with its tags.
pub fn search_secrets(conn: &rusqlite::Connection, query: &str, project_id: Option<&str>, tags: Option<&[String]>) -> (r: Result<Vec<SecretMeta>, AppError>)
    ensures
        r matches Ok(ms) ==> nul_free(spec_trim(query@))
            ==> forall|i: int| 0 <= i < ms@.len() ==> meta_contains(#[trigger] ms@[i], spec_trim(query@)),
        r matches Ok(ms) ==> exists|rows: Seq<SecretMeta>| ms@ == spec_filter_tagged(rows, wanted_tags(tags))
            && forall|k: int| 0 <= k < rows.len() ==> (project_id matches Some(p) ==> (#[trigger] rows[k]).project_id@ == p@),
        r matches Ok(ms) ==> sorted_nocase(meta_keys(ms@)),
        r matches Ok(ms) ==> forall|i: int| 0 <= i < ms@.len() ==> sorted_nocase(string_views((#[trigger] ms@[i]).tags@)),
        r matches Ok(ms) ==> forall|i: int| 0 <= i < ms@.len() ==> (tags matches Some(w) ==> has_all_tags((#[trigger] ms@[i]).tags@, w@)),
        r matches Ok(ms) ==> forall|i: int| 0 <= i < ms@.len() ==> (project_id matches Some(p) ==> (#[trigger] ms@[i]).project_id@ == p@),
        r matches Err(e) ==> e matches AppError::Database(_),
{
    let pattern = search_pattern(query);
    let rows = match project_id {
        Some(pid) => lift(sql_search_secret_metas_in(conn, pattern.as_str(), pid))?,
        None => lift(sql_search_secret_metas(conn, pattern.as_str()))?,
    };
    let ghost before = rows@;
    let tagged = attach_tags(conn, rows)?;
    let empty: Vec<String> = Vec::new();
    let wanted: &[String] = match tags {
        Some(t) => t,
        None => empty.as_slice(),
    };
    let out = filter_tagged(tagged, wanted);
    proof {
        lemma_filter_tagged_members(tagged@, wanted@);
        assert(meta_keys(tagged@) =~= meta_keys(before));
        lemma_filter_tagged_sorted(tagged@, wanted@);
        if nul_free(spec_trim(query@)) {
            assert(pattern@ == spec_contains_pattern(spec_trim(query@)));
            assert forall|i: int| 0 <= i < out@.len() implies meta_contains(#[trigger] out@[i], spec_trim(query@)) by {
                lemma_filter_tagged_from(tagged@, wanted@, i);
                let k = choose|k: int| 0 <= k < tagged@.len() && tagged@[k] == out@[i];
                assert(meta_contains(before[k], spec_trim(query@)));
            }
        }
        assert(wanted@ == wanted_tags(tags));
        assert forall|k: int| 0 <= k < tagged@.len() implies (project_id matches Some(p) ==> (#[trigger] tagged@[k]).project_id@ == p@) by {
            if project_id is Some {
                assert(before[k].project_id@ == project_id->0@);
            }
        }
        assert forall|i: int| 0 <= i < out@.len() implies sorted_nocase(string_views((#[trigger] out@[i]).tags@)) by {
            lemma_filter_tagged_from(tagged@, wanted@, i);
            let k = choose|k: int| 0 <= k < tagged@.len() && tagged@[k] == out@[i];
            assert(sorted_nocase(string_views(tagged@[k].tags@)));
        }
        assert forall|i: int| 0 <= i < out@.len() implies (project_id matches Some(p) ==> (#[trigger] out@[i]).project_id@ == p@) by {
            if project_id is Some {
                lemma_filter_tagged_from(tagged@, wanted@, i);
                let k = choose|k: int| 0 <= k < tagged@.len() && tagged@[k] == out@[i];
                assert(before[k].project_id@ == project_id->0@);
            }
        }
    }
    Ok(out)
}

/// Every secret that [`filter_tagged`] keeps carries all the wanted tags.
proof fn lemma_filter_tagged_members(metas: Seq<SecretMeta>, wanted: Seq<String>)
    ensures
        forall|i: int| 0 <= i < spec_filter_tagged(metas, wanted).len()
            ==> has_all_tags((#[trigger] spec_filter_tagged(metas, wanted)[i]).tags@, wanted),
    decreases metas.len(),
{
    if metas.len() > 0 {
        lemma_filter_tagged_members(metas.drop_last(), wanted);
    }
}

/// [`filter_tagged`] keeps the input's key order.
proof fn lemma_filter_tagged_sorted(metas: Seq<SecretMeta>, wanted: Seq<String>)
    requires
        sorted_nocase(meta_keys(metas)),
    ensures
        sorted_nocase(meta_keys(spec_filter_tagged(metas, wanted))),
    decreases metas.len(),
{
    if metas.len() > 0 {
        let init = metas.drop_last();
        assert(meta_keys(init) =~= meta_keys(metas).drop_last());
        lemma_filter_tagged_sorted(init, wanted);
        let rest = spec_filter_tagged(init, wanted);
        if has_all_tags(metas.last().tags@, wanted) {
            let out = rest.push(metas.last());
            assert forall|i: int, j: int| 0 <= i < j < out.len() && nul_free(#[trigger] meta_keys(out)[i]) && nul_free(#[trigger] meta_keys(out)[j])
                implies bytes_le(nocase_key(meta_keys(out)[i]), nocase_key(meta_keys(out)[j])) by {
                if j < rest.len() {
                    assert(meta_keys(out)[i] == meta_keys(rest)[i]);
                    assert(meta_keys(out)[j] == meta_keys(rest)[j]);
                } else {
                    lemma_filter_tagged_from(init, wanted, i);
                    let k = choose|k: int| 0 <= k < init.len() && init[k] == rest[i];
                    assert(meta_keys(metas)[k] == meta_keys(out)[i]);
                    assert(meta_keys(metas)[metas.len() - 1] == meta_keys(out)[j]);
                }
            }
        }
    }
}

/// Every secret that [`filter_tagged`] keeps comes from its input.
proof fn lemma_filter_tagged_from(metas: Seq<SecretMeta>, wanted: Seq<String>, i: int)
    requires
        0 <= i < spec_filter_tagged(metas, wanted).len(),
    ensures
        exists|k: int| 0 <= k < metas.len() && metas[k] == spec_filter_tagged(metas, wanted)[i],
    decreases metas.len(),
{
    let rest = spec_filter_tagged(metas.drop_last(), wanted);
    if i < rest.len() {
        lemma_filter_tagged_from(metas.drop_last(), wanted, i);
        let k = choose|k: int| 0 <= k < metas.drop_last().len() && metas.drop_last()[k] == rest[i];
        assert(metas[k] == metas.drop_last()[k]);
    } else {
        assert(metas[metas.len() - 1] == metas.last());
    }
}

// ---------------------------------------------------------------------------
// Tags
// ---------------------------------------------------------------------------

/// All tags, ordered by name without regard to ASCII case.
pub fn list_tags(conn: &rusqlite::Connection) -> (r: Result<Vec<Tag>, AppError>)
    ensures
        r matches Ok(ts) ==> sorted_nocase(tag_names(ts@)),
        r matches Err(e) ==> e matches AppError::Database(_),
{
    lift(sql_list_tags(conn))
}

/// Delete the tag with id `id`.
pub fn delete_tag(conn: &rusqlite::Connection, id: &str) -> (r: Result<(), AppError>)
    ensures
        r matches Err(AppError::NotFound(m)) ==> m@ == "tag "@ + id@,
        r matches Err(e) ==> (e matches AppError::NotFound(_) || e matches AppError::Database(_)),
{
    let n = lift(sql_delete_tag(conn, id))?;
    deletion_result(n, "tag ", id)
}

/// Replace a secret's tag set: each name is trimmed, empty names are skipped,
/// tag rows are created as needed, and tags no secret references any more
/// are pruned.
fn set_tags(conn: &rusqlite::Connection, secret_id: &str, tags: &[String]) -> (r: Result<(), AppError>)
    ensures
        r matches Err(e) ==> (e matches AppError::Database(_) || e matches AppError::Crypto(_)),
{
    lift(sql_clear_secret_tags(conn, secret_id))?;
    let mut i: usize = 0;
    while i < tags.len()
        invariant
            0 <= i <= tags@.len(),
        decreases tags@.len() - i,
    {
        let name = trim(tags[i].as_str());
        if !name.is_empty() {
            let id = new_id()?;
            lift(sql_insert_tag_if_absent(conn, id.as_str(), name))?;
            let tag_id = lift(sql_tag_id_by_name(conn, name))?;
            lift(sql_link_secret_tag(conn, secret_id, tag_id.as_str()))?;
        }
        i = i + 1;
    }
    prune_orphan_tags(conn)
}

/// Delete tags that no secret references.
fn prune_orphan_tags(conn: &rusqlite::Connection) -> (r: Result<(), AppError>)
    ensures
        r matches Err(e) ==> e matches AppError::Database(_),
{
    lift(sql_prune_orphan_tags(conn))?;
    Ok(())
}

/// The tag names of a secret, ordered without regard to ASCII case.
fn tags_for_secret(conn: &rusqlite::Connection, secret_id: &str) -> (r: Result<Vec<String>, AppError>)
    ensures
        r matches Ok(ts) ==> sorted_nocase(string_views(ts@)),
        r matches Err(e) ==> e matches AppError::Database(_),
{
    lift(sql_tags_for_secret(conn, secret_id))
}

} // verus!
