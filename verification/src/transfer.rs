//! Export / import of projects and secrets as a portable bundle, plaintext or
//! sealed into a passphrase-protected vault file.
//!
//! An export holds decrypted secret values. Turning bundles and vault files
//! into JSON text and back is the command layer's business; the bundle logic,
//! the sealing of the JSON text and the checks on what was read live here.

use vstd::prelude::*;
use vstd::string::StringExecFns;
use vstd::utf8::{decode_utf8, encode_utf8, valid_utf8};

use crate::crypto::{self, spec_decrypt, spec_derive_key, Argon2Params, KEY_LEN};
use crate::db::{lift, now_ms};
use crate::encoding::{hex_decode, hex_encode, is_hex_text, spec_hex_decode};
use crate::error::AppError;
use crate::models::{Project, Secret, SecretMeta};
use crate::repo;
use crate::sqlite::{meta_keys, project_names, sorted_nocase, sql_execute_batch};
use crate::text::{concat3, push_char, spec_trim, string_from_utf8};

verus! {

pub const EXPORT_FORMAT: &'static str = "secret-manager-export";

pub const EXPORT_VERSION: u32 = 1;

/// Format tag for the passphrase-encrypted vault file.
pub const VAULT_FORMAT: &'static str = "secret-manager-vault";

pub const VAULT_VERSION: u32 = 1;

/// One exported secret, value in plaintext.
#[derive(Debug)]
pub struct ExportSecret {
    pub key: String,
    pub value: String,
    pub description: Option<String>,
    pub tags: Vec<String>,
    pub created_at: i64,
    pub updated_at: i64,
}

/// One exported project with its secrets.
#[derive(Debug)]
pub struct ExportProject {
    pub name: String,
    pub description: Option<String>,
    pub created_at: i64,
    pub updated_at: i64,
    pub secrets: Vec<ExportSecret>,
}

/// A portable export of some or all projects.
#[derive(Debug)]
pub struct ExportBundle {
    pub format: String,
    pub version: u32,
    pub exported_at: i64,
    pub projects: Vec<ExportProject>,
}

/// How to handle a secret that already exists (same key in the same project).
#[derive(Debug, Clone, Copy, PartialEq, Eq, Structural)]
pub enum ImportMode {
    /// Keep the existing secret, ignore the imported one.
    Skip,
    /// Replace the existing secret's value, description and tags.
    Overwrite,
}

impl Default for ImportMode {
    fn default() -> (m: Self)
        ensures
            m == ImportMode::Skip,
    {
        ImportMode::Skip
    }
}

/// What an import did.
#[derive(Debug)]
pub struct ImportSummary {
    pub projects_created: u32,
    pub projects_merged: u32,
    pub secrets_imported: u32,
    pub secrets_overwritten: u32,
    pub secrets_skipped: u32,
}

impl Default for ImportSummary {
    fn default() -> (s: Self)
        ensures
            s.projects_created == 0 && s.projects_merged == 0 && s.secrets_imported == 0
                && s.secrets_overwritten == 0 && s.secrets_skipped == 0,
    {
        ImportSummary { projects_created: 0, projects_merged: 0, secrets_imported: 0, secrets_overwritten: 0, secrets_skipped: 0 }
    }
}

/// The envelope of an encrypted export: the JSON bundle sealed under a key
/// derived from a passphrase.
#[derive(Debug)]
pub struct VaultFile {
    pub format: String,
    pub version: u32,
    pub kdf: Argon2Params,
    /// Hex salt.
    pub salt: String,
    /// Hex `nonce || AES-256-GCM(ciphertext)` of the JSON bundle.
    pub data: String,
}

// ---------------------------------------------------------------------------
// Export
// ---------------------------------------------------------------------------

/// A copy of an optional string.
fn copy_description(d: &Option<String>) -> (o: Option<String>)
    ensures
        o == *d,
{
    match d {
        Some(s) => Some(s.clone()),
        None => None,
    }
}

/// The exported form of a secret.
fn export_secret(s: Secret) -> (e: ExportSecret)
    ensures
        e.key == s.key && e.value == s.value && e.description == s.description && e.tags == s.tags
            && e.created_at == s.created_at && e.updated_at == s.updated_at,
{
    ExportSecret {
        key: s.key,
        value: s.value,
        description: s.description,
        tags: s.tags,
        created_at: s.created_at,
        updated_at: s.updated_at,
    }
}

/// `e` is the exported form of `s`.
pub open spec fn exported_secret(e: ExportSecret, s: Secret) -> bool {
    e.key == s.key && e.value == s.value && e.description == s.description && e.tags == s.tags
        && e.created_at == s.created_at && e.updated_at == s.updated_at
}

/// `e` is the exported form of project `p` with secrets `ss`, in order.
pub open spec fn exported_project(e: ExportProject, p: Project, ss: Seq<Secret>) -> bool {
    &&& e.name == p.name
    &&& e.description == p.description
    &&& e.created_at == p.created_at
    &&& e.updated_at == p.updated_at
    &&& e.secrets@.len() == ss.len()
    &&& forall|j: int| 0 <= j < ss.len() ==> exported_secret(#[trigger] e.secrets@[j], ss[j])
}

/// The exported form of project `p` with its secrets.
pub fn export_project(p: &Project, secrets: Vec<Secret>) -> (e: ExportProject)
    ensures
        exported_project(e, *p, secrets@),
{
    let ghost orig = secrets@;
    let mut rest = secrets;
    let mut rev: Vec<ExportSecret> = Vec::new();
    while rest.len() > 0
        invariant
            rest@.len() + rev@.len() == orig.len(),
            forall|k: int| 0 <= k < rest@.len() ==> #[trigger] rest@[k] == orig[k],
            forall|k: int| 0 <= k < rev@.len() ==> exported_secret(#[trigger] rev@[k], orig[orig.len() - 1 - k]),
        decreases rest@.len(),
    {
        let s = rest.pop().unwrap();
        rev.push(export_secret(s));
    }
    let mut out: Vec<ExportSecret> = Vec::new();
    while rev.len() > 0
        invariant
            rev@.len() + out@.len() == orig.len(),
            forall|k: int| 0 <= k < rev@.len() ==> exported_secret(#[trigger] rev@[k], orig[orig.len() - 1 - k]),
            forall|k: int| 0 <= k < out@.len() ==> exported_secret(#[trigger] out@[k], orig[k]),
        decreases rev@.len(),
    {
        let e = rev.pop().unwrap();
        out.push(e);
    }
    ExportProject {
        name: p.name.clone(),
        description: copy_description(&p.description),
        created_at: p.created_at,
        updated_at: p.updated_at,
        secrets: out,
    }
}

/// `out` exports projects `ps`: project `i` with the secrets `ss[i]` read by
/// id for the listing `metas[i]` of its secrets, one for one and in order.
pub open spec fn exports(out: Seq<ExportProject>, ps: Seq<Project>, metas: Seq<Seq<SecretMeta>>, ss: Seq<Seq<Secret>>) -> bool {
    &&& out.len() == ps.len()
    &&& metas.len() == ps.len()
    &&& ss.len() == ps.len()
    &&& forall|i: int| 0 <= i < ps.len() ==> exported_project(#[trigger] out[i], ps[i], ss[i])
    &&& forall|i: int| 0 <= i < ps.len() ==> listing_read(#[trigger] metas[i], ss[i], ps[i])
}

/// `ss` holds, in order, the secrets read by the ids of the listing `metas`
/// of project `p`'s secrets.
pub open spec fn listing_read(metas: Seq<SecretMeta>, ss: Seq<Secret>, p: Project) -> bool {
    &&& ss.len() == metas.len()
    &&& sorted_nocase(meta_keys(metas))
    &&& forall|j: int| 0 <= j < metas.len() ==> (#[trigger] metas[j]).project_id@ == p.id@ && ss[j].id@ == metas[j].id@
}

/// Export each project with its secrets, read one by one. Besides the
/// exported projects it hands back the secret listings and the secrets read.
fn export_projects(conn: &rusqlite::Connection, vault_key: &[u8; KEY_LEN], projects: &Vec<Project>)
    -> (r: Result<(Vec<ExportProject>, Ghost<Seq<Seq<SecretMeta>>>, Ghost<Seq<Seq<Secret>>>), AppError>)
    ensures
        r matches Ok((out, metas, ss)) ==> exports(out@, projects@, metas@, ss@),
        r matches Err(e) ==> (e matches AppError::NotFound(_) || e matches AppError::Database(_) || e matches AppError::Crypto(_)),
{
    let mut out: Vec<ExportProject> = Vec::new();
    let ghost mut gm: Seq<Seq<SecretMeta>> = Seq::empty();
    let ghost mut gs: Seq<Seq<Secret>> = Seq::empty();
    let mut i: usize = 0;
    while i < projects.len()
        invariant
            0 <= i <= projects@.len(),
            exports(out@, projects@.take(i as int), gm, gs),
        decreases projects@.len() - i,
    {
        let p = &projects[i];
        let metas = repo::list_secrets(conn, p.id.as_str())?;
        let mut secrets: Vec<Secret> = Vec::new();
        let mut j: usize = 0;
        while j < metas.len()
            invariant
                0 <= j <= metas@.len(),
                secrets@.len() == j,
                forall|k: int| 0 <= k < j ==> (#[trigger] secrets@[k]).id@ == metas@[k].id@,
            decreases metas@.len() - j,
        {
            let s = repo::get_secret(conn, vault_key, metas[j].id.as_str())?;
            secrets.push(s);
            j = j + 1;
        }
        let ghost read = secrets@;
        let e = export_project(p, secrets);
        proof {
            let pi = projects@.take(i + 1);
            assert(pi.drop_last() =~= projects@.take(i as int));
            assert(pi[i as int] == *p);
            assert(listing_read(metas@, read, *p));
        }
        out.push(e);
        proof {
            gm = gm.push(metas@);
            gs = gs.push(read);
            let pi = projects@.take(i + 1);
            assert forall|k: int| 0 <= k < pi.len() implies exported_project(#[trigger] out@[k], pi[k], gs[k])
                && listing_read(gm[k], gs[k], pi[k]) by {
                if k < i {
                    assert(pi[k] == projects@.take(i as int)[k]);
                }
            }
        }
        i = i + 1;
    }
    assert(projects@.take(projects@.len() as int) =~= projects@);
    Ok((out, Ghost(gm), Ghost(gs)))
}

/// Build an export bundle. `project_id = None` exports the whole vault, in
/// project-name order; `Some` exports that single project. Each project comes
/// with the secrets its listing names, read by id.
pub fn export(conn: &rusqlite::Connection, vault_key: &[u8; KEY_LEN], project_id: Option<&str>) -> (r: Result<ExportBundle, AppError>)
    ensures
        r matches Ok(b) ==> b.format@ == EXPORT_FORMAT@ && b.version == EXPORT_VERSION,
        r matches Ok(b) ==> (project_id is Some ==> b.projects@.len() == 1),
        r matches Ok(b) ==> (project_id is None ==> sorted_nocase(b.projects@.map_values(|p: ExportProject| p.name@))),
        r matches Ok(b) ==> exists|ps: Seq<Project>, metas: Seq<Seq<SecretMeta>>, ss: Seq<Seq<Secret>>|
            #[trigger] exports(b.projects@, ps, metas, ss)
            && (project_id is None ==> sorted_nocase(project_names(ps)))
            && (project_id matches Some(id) ==> ps.len() == 1 && ps[0].id@ == id@),
        r matches Err(e) ==> (e matches AppError::NotFound(_) || e matches AppError::Database(_) || e matches AppError::Crypto(_)),
{
    let projects: Vec<Project> = match project_id {
        Some(id) => {
            let p = repo::get_project(conn, id)?;
            let mut v: Vec<Project> = Vec::new();
            v.push(p);
            v
        },
        None => repo::list_projects(conn)?,
    };
    let (out, metas, ss) = export_projects(conn, vault_key, &projects)?;
    let ghost gps = projects@;
    let ghost gm = metas@;
    let ghost gs = ss@;
    proof {
        assert(out@.map_values(|p: ExportProject| p.name@) =~= project_names(projects@));
        assert(exports(out@, gps, gm, gs));
    }
    let b = ExportBundle {
        format: String::from_str(EXPORT_FORMAT),
        version: EXPORT_VERSION,
        exported_at: now_ms(),
        projects: out,
    };
    let res: Result<ExportBundle, AppError> = Ok(b);
    assert(res matches Ok(bb) && exports(bb.projects@, gps, gm, gs)
        && (project_id is None ==> sorted_nocase(project_names(gps)))
        && (project_id matches Some(id) ==> gps.len() == 1 && gps[0].id@ == id@));
    res
}

// ---------------------------------------------------------------------------
// Encrypted vault file
// ---------------------------------------------------------------------------

/// The decimal digits of `n`, most significant first, without leading zeros.
pub open spec fn spec_decimal(n: nat) -> Seq<char>
    decreases n,
{
    if n < 10 {
        seq![(48 + n) as char]
    } else {
        spec_decimal(n / 10).push((48 + n % 10) as char)
    }
}

/// The decimal digits of `v`, as `u32`'s `to_string` writes them.
fn decimal(v: u32) -> (s: String)
    ensures
        s@ == spec_decimal(v as nat),
    decreases v,
{
    let mut s = if v < 10 {
        String::new()
    } else {
        decimal(v / 10)
    };
    let d: u8 = (v % 10) as u8;
    let c = (48u8 + d) as char;
    push_char(&mut s, c);
    proof {
        if v < 10 {
            assert(s@ =~= seq![(48 + v as nat) as char]);
        }
    }
    s
}

/// A passphrase for an encrypted export must not be empty.
pub fn check_passphrase(passphrase: &str) -> (r: Result<(), AppError>)
    ensures
        r is Ok <==> passphrase@.len() > 0,
        r matches Err(e) ==> e matches AppError::Invalid(_),
{
    if passphrase.is_empty() {
        return Err(AppError::invalid("passphrase must not be empty"));
    }
    Ok(())
}

/// The JSON text a vault file opens to under `passphrase`, or `None`.
pub open spec fn spec_open_vault_file(file: VaultFile, passphrase: Seq<char>) -> Option<Seq<char>> {
    if file.format@ != VAULT_FORMAT@ || file.version > VAULT_VERSION || !is_hex_text(file.salt@) || !is_hex_text(file.data@) {
        None
    } else {
        match spec_derive_key(encode_utf8(passphrase), spec_hex_decode(file.salt@), file.kdf) {
            Some(key) => match spec_decrypt(key, spec_hex_decode(file.data@)) {
                Some(bytes) => if valid_utf8(bytes) {
                    Some(decode_utf8(bytes))
                } else {
                    None
                },
                None => None,
            },
            None => None,
        }
    }
}

/// Seal the JSON text of a bundle into a vault file under a key derived from
/// `passphrase` (default Argon2 costs, fresh salt and nonce). The file opens
/// again, with the same passphrase, to the same text.
pub fn seal_bundle_text(json: &str, passphrase: &str) -> (r: Result<VaultFile, AppError>)
    ensures
        passphrase@.len() == 0 <==> r matches Err(AppError::Invalid(_)),
        r matches Err(e) ==> (e matches AppError::Invalid(_) || e matches AppError::Crypto(_)),
        r matches Ok(f) ==> f.format@ == VAULT_FORMAT@ && f.version == VAULT_VERSION
            && f.kdf == (Argon2Params { m_cost: 65536, t_cost: 3, p_cost: 4 }),
        r matches Ok(f) ==> spec_open_vault_file(f, passphrase@) == Some(json@),
{
    check_passphrase(passphrase)?;
    let params = Argon2Params::default();
    let salt = crypto::generate_salt()?;
    let key = crypto::derive_key(passphrase, salt.as_slice(), &params)?;
    let blob = crypto::encrypt(&key, json.as_bytes())?;
    let salt_hex = hex_encode(salt.as_slice());
    let data_hex = hex_encode(blob.as_slice());
    proof {
        crate::encoding::lemma_hex_round_trip(salt@);
        crate::encoding::lemma_hex_round_trip(blob@);
        vstd::utf8::encode_utf8_valid_utf8(json@);
        vstd::utf8::encode_utf8_decode_utf8(json@);
        reveal_strlit("secret-manager-vault");
    }
    Ok(VaultFile {
        format: String::from_str(VAULT_FORMAT),
        version: VAULT_VERSION,
        kdf: params,
        salt: salt_hex,
        data: data_hex,
    })
}

/// `true` if a parsed file has the vault-file format tag.
pub fn is_vault_file(file: &VaultFile) -> (b: bool)
    ensures
        b == (file.format@ == VAULT_FORMAT@),
{
    let tag = String::from_str(VAULT_FORMAT);
    file.format.eq(&tag)
}

/// Open a parsed vault file with `passphrase`, giving the JSON text of the
/// bundle inside. A foreign format or a newer version is refused; a wrong
/// passphrase or tampering gives `Invalid`.
pub fn open_vault_file(file: &VaultFile, passphrase: &str) -> (r: Result<String, AppError>)
    ensures
        r matches Ok(s) ==> spec_open_vault_file(*file, passphrase@) == Some(s@),
        r is Ok <==> spec_open_vault_file(*file, passphrase@) is Some,
        file.format@ != VAULT_FORMAT@ ==> (r matches Err(AppError::Invalid(m)) && m@ == "unrecognized file format"@),
        file.format@ == VAULT_FORMAT@ && file.version > VAULT_VERSION ==> (r matches Err(AppError::Invalid(m))
            && m@ == "vault file was made by a newer version (v"@ + spec_decimal(file.version as nat) + ")"@),
        ({
            &&& file.format@ == VAULT_FORMAT@
            &&& file.version <= VAULT_VERSION
            &&& is_hex_text(file.salt@)
            &&& is_hex_text(file.data@)
            &&& spec_derive_key(encode_utf8(passphrase@), spec_hex_decode(file.salt@), file.kdf) matches Some(key)
            &&& spec_decrypt(key, spec_hex_decode(file.data@)) is None
        }) ==> r matches Err(AppError::Invalid(_)),
{
    if !is_vault_file(file) {
        return Err(AppError::invalid("unrecognized file format"));
    }
    if file.version > VAULT_VERSION {
        let v = decimal(file.version);
        return Err(AppError::Invalid(concat3("vault file was made by a newer version (v", v.as_str(), ")")));
    }
    let salt = match hex_decode(file.salt.as_str()) {
        Ok(s) => s,
        Err(_) => return Err(AppError::crypto("corrupt salt")),
    };
    let blob = match hex_decode(file.data.as_str()) {
        Ok(b) => b,
        Err(_) => return Err(AppError::crypto("corrupt data")),
    };
    let key = crypto::derive_key(passphrase, salt.as_slice(), &file.kdf)?;
    let plaintext = match crypto::decrypt(&key, blob.as_slice()) {
        Ok(p) => p,
        Err(_) => return Err(AppError::invalid("wrong passphrase or corrupt vault file")),
    };
    match string_from_utf8(plaintext) {
        Ok(s) => Ok(s),
        Err(_) => Err(AppError::crypto("decrypted data is not valid UTF-8")),
    }
}

/// Validate a parsed bundle: its format tag must be the export format and its
/// version not newer than this one.
pub fn check_bundle(bundle: ExportBundle) -> (r: Result<ExportBundle, AppError>)
    ensures
        r is Ok <==> bundle.format@ == EXPORT_FORMAT@ && bundle.version <= EXPORT_VERSION,
        r matches Ok(b) ==> b == bundle,
        bundle.format@ != EXPORT_FORMAT@ ==> (r matches Err(AppError::Invalid(m)) && m@ == "unrecognized file format"@),
        bundle.format@ == EXPORT_FORMAT@ && bundle.version > EXPORT_VERSION ==> (r matches Err(AppError::Invalid(m))
            && m@ == "file was made by a newer version (v"@ + spec_decimal(bundle.version as nat) + ")"@),
        r matches Err(e) ==> e matches AppError::Invalid(_),
{
    let tag = String::from_str(EXPORT_FORMAT);
    if !bundle.format.eq(&tag) {
        return Err(AppError::invalid("unrecognized file format"));
    }
    if bundle.version > EXPORT_VERSION {
        let v = decimal(bundle.version);
        return Err(AppError::Invalid(concat3("file was made by a newer version (v", v.as_str(), ")")));
    }
    Ok(bundle)
}

// ---------------------------------------------------------------------------
// Import
// ---------------------------------------------------------------------------

/// The number of secrets in `projects`.
pub open spec fn total_secrets(projects: Seq<ExportProject>) -> nat
    decreases projects.len(),
{
    if projects.len() == 0 {
        0
    } else {
        total_secrets(projects.drop_last()) + projects.last().secrets@.len()
    }
}

proof fn lemma_total_secrets_prefix(projects: Seq<ExportProject>, i: int)
    requires
        0 <= i < projects.len(),
    ensures
        total_secrets(projects.take(i + 1)) == total_secrets(projects.take(i)) + projects[i].secrets@.len(),
        total_secrets(projects.take(i + 1)) <= total_secrets(projects),
    decreases projects.len(),
{
    assert(projects.take(i + 1).drop_last() =~= projects.take(i));
    if i + 1 < projects.len() {
        lemma_total_secrets_prefix(projects.drop_last(), i);
        assert(projects.drop_last().take(i + 1) =~= projects.take(i + 1));
    } else {
        assert(projects.take(i + 1) =~= projects);
    }
}

/// Every project and every secret of the bundle is accounted for exactly once.
pub open spec fn summary_accounts_for(s: ImportSummary, bundle: ExportBundle, mode: ImportMode) -> bool {
    &&& s.projects_created + s.projects_merged == bundle.projects@.len()
    &&& s.secrets_imported + s.secrets_overwritten + s.secrets_skipped == total_secrets(bundle.projects@)
    &&& (mode == ImportMode::Skip ==> s.secrets_overwritten == 0)
    &&& (mode == ImportMode::Overwrite ==> s.secrets_skipped == 0)
}

/// What an import does with a bundle project.
#[derive(Debug, Clone, Copy, PartialEq, Eq, Structural)]
pub enum ProjectAction {
    /// No project has its name: create one.
    Create,
    /// A project has its name: import into it.
    Merge,
}

/// What an import does with a bundle secret.
#[derive(Debug, Clone, Copy, PartialEq, Eq, Structural)]
pub enum SecretAction {
    /// The project has no secret with its key: add it.
    Import,
    /// The key exists and the mode is `Overwrite`: replace the secret's value,
    /// description and tags with the imported ones.
    Overwrite,
    /// The key exists and the mode is `Skip`: leave the existing secret.
    Skip,
}

/// The action for a bundle project, given whether one with its name exists.
pub fn project_action(exists: bool) -> (a: ProjectAction)
    ensures
        a == (if exists { ProjectAction::Merge } else { ProjectAction::Create }),
{
    if exists {
        ProjectAction::Merge
    } else {
        ProjectAction::Create
    }
}

/// The action for a bundle secret, given whether its key exists in the
/// project and the import mode.
pub fn secret_action(exists: bool, mode: ImportMode) -> (a: SecretAction)
    ensures
        a == (if !exists {
            SecretAction::Import
        } else if mode == ImportMode::Overwrite {
            SecretAction::Overwrite
        } else {
            SecretAction::Skip
        }),
{
    if !exists {
        SecretAction::Import
    } else {
        match mode {
            ImportMode::Overwrite => SecretAction::Overwrite,
            ImportMode::Skip => SecretAction::Skip,
        }
    }
}

/// The fields an overwrite hands to the secret update: the imported key,
/// value, description (absent clears the old one) and tags, every one given.
pub fn overwrite_fields(s: &ExportSecret) -> (f: (Option<&str>, Option<&str>, Option<Option<&str>>, Option<&[String]>))
    ensures
        f.0 matches Some(k) && k@ == s.key@,
        f.1 matches Some(v) && v@ == s.value@,
        f.2 matches Some(d) && (s.description is None <==> d is None)
            && (s.description matches Some(x) ==> d matches Some(y) && y@ == x@),
        f.3 matches Some(t) && t@ == s.tags@,
{
    let description = match &s.description {
        Some(d) => Some(d.as_str()),
        None => None,
    };
    (Some(s.key.as_str()), Some(s.value.as_str()), Some(description), Some(s.tags.as_slice()))
}

/// Count a project action: `Create` bumps `projects_created`, `Merge` bumps
/// `projects_merged`.
pub fn count_project(s: &mut ImportSummary, a: ProjectAction)
    requires
        old(s).projects_created + old(s).projects_merged < u32::MAX,
    ensures
        final(s).projects_created == old(s).projects_created + (if a == ProjectAction::Create { 1int } else { 0 }),
        final(s).projects_merged == old(s).projects_merged + (if a == ProjectAction::Merge { 1int } else { 0 }),
        final(s).secrets_imported == old(s).secrets_imported,
        final(s).secrets_overwritten == old(s).secrets_overwritten,
        final(s).secrets_skipped == old(s).secrets_skipped,
{
    match a {
        ProjectAction::Create => s.projects_created = s.projects_created + 1,
        ProjectAction::Merge => s.projects_merged = s.projects_merged + 1,
    }
}

/// Count a secret action in the counter of the same name.
pub fn count_secret(s: &mut ImportSummary, a: SecretAction)
    requires
        old(s).secrets_imported + old(s).secrets_overwritten + old(s).secrets_skipped < u32::MAX,
    ensures
        final(s).projects_created == old(s).projects_created,
        final(s).projects_merged == old(s).projects_merged,
        final(s).secrets_imported == old(s).secrets_imported + (if a == SecretAction::Import { 1int } else { 0 }),
        final(s).secrets_overwritten == old(s).secrets_overwritten + (if a == SecretAction::Overwrite { 1int } else { 0 }),
        final(s).secrets_skipped == old(s).secrets_skipped + (if a == SecretAction::Skip { 1int } else { 0 }),
{
    match a {
        SecretAction::Import => s.secrets_imported = s.secrets_imported + 1,
        SecretAction::Overwrite => s.secrets_overwritten = s.secrets_overwritten + 1,
        SecretAction::Skip => s.secrets_skipped = s.secrets_skipped + 1,
    }
}

/// The number of `true` answers in `s`.
pub open spec fn count_true(s: Seq<bool>) -> nat
    decreases s.len(),
{
    if s.len() == 0 {
        0
    } else {
        count_true(s.drop_last()) + if s.last() { 1nat } else { 0nat }
    }
}

/// The number of `true` answers over all of `sf`.
pub open spec fn count_true_all(sf: Seq<Seq<bool>>) -> nat
    decreases sf.len(),
{
    if sf.len() == 0 {
        0
    } else {
        count_true_all(sf.drop_last()) + count_true(sf.last())
    }
}

/// `s` is what an import of `projects` in `mode` counts, given the database's
/// answers: `project_found[i]` whether a project named like project `i`
/// existed when it was looked up, `secret_found[i][j]` whether its secret `j`'s
/// key existed in it. A found project is merged, a missing one created; a
/// missing key is imported, a found one overwritten or skipped by `mode`
/// (see [`project_action`] and [`secret_action`]).
pub open spec fn planned_import(
    s: ImportSummary,
    projects: Seq<ExportProject>,
    project_found: Seq<bool>,
    secret_found: Seq<Seq<bool>>,
    mode: ImportMode,
) -> bool {
    &&& project_found.len() == projects.len()
    &&& secret_found.len() == projects.len()
    &&& forall|i: int| 0 <= i < projects.len() ==> (#[trigger] secret_found[i]).len() == projects[i].secrets@.len()
    &&& s.projects_merged == count_true(project_found)
    &&& s.projects_created + count_true(project_found) == projects.len()
    &&& s.secrets_imported + count_true_all(secret_found) == total_secrets(projects)
    &&& (mode == ImportMode::Overwrite ==> s.secrets_overwritten == count_true_all(secret_found) && s.secrets_skipped == 0)
    &&& (mode == ImportMode::Skip ==> s.secrets_skipped == count_true_all(secret_found) && s.secrets_overwritten == 0)
}

/// Secret `w`, as a write handed it back, carries the bundle secret `e`'s key
/// (trimmed), value and description.
pub open spec fn written_as(w: Secret, e: ExportSecret) -> bool {
    &&& w.key@ == spec_trim(e.key@)
    &&& w.value@ == e.value@
    &&& (e.description is None <==> w.description is None)
    &&& (e.description matches Some(d) ==> w.description matches Some(x) && x@ == d@)
}

/// The writes for one project's bundle `secrets`, given whether each key was
/// `found`: a missing key is added, and in `Overwrite` mode a found one is
/// updated, each with the bundle secret's fields; in `Skip` mode a found one is
/// left alone (`None`).
pub open spec fn secrets_written(secrets: Seq<ExportSecret>, found: Seq<bool>, written: Seq<Option<Secret>>, mode: ImportMode) -> bool {
    &&& written.len() == secrets.len()
    &&& found.len() == secrets.len()
    &&& forall|j: int| 0 <= j < secrets.len() ==> (if !found[j] || mode == ImportMode::Overwrite {
        (#[trigger] written[j]) matches Some(w) && written_as(w, secrets[j])
    } else {
        written[j] is None
    })
}

/// The writes of an import of `projects`, project by project.
pub open spec fn import_wrote(projects: Seq<ExportProject>, secret_found: Seq<Seq<bool>>, written: Seq<Seq<Option<Secret>>>, mode: ImportMode) -> bool {
    &&& written.len() == projects.len()
    &&& secret_found.len() == projects.len()
    &&& forall|i: int| 0 <= i < projects.len() ==> secrets_written(projects[i].secrets@, secret_found[i], #[trigger] written[i], mode)
}

/// The number of writes in `w`.
pub open spec fn count_written(w: Seq<Option<Secret>>) -> nat
    decreases w.len(),
{
    if w.len() == 0 {
        0
    } else {
        count_written(w.drop_last()) + if w.last() is Some { 1nat } else { 0nat }
    }
}

/// The number of writes over all of `ws`.
pub open spec fn count_written_all(ws: Seq<Seq<Option<Secret>>>) -> nat
    decreases ws.len(),
{
    if ws.len() == 0 {
        0
    } else {
        count_written_all(ws.drop_last()) + count_written(ws.last())
    }
}

proof fn lemma_secrets_written_count(secrets: Seq<ExportSecret>, found: Seq<bool>, written: Seq<Option<Secret>>, mode: ImportMode)
    requires
        secrets_written(secrets, found, written, mode),
    ensures
        mode == ImportMode::Overwrite ==> count_written(written) == secrets.len(),
        mode == ImportMode::Skip ==> count_written(written) + count_true(found) == secrets.len(),
    decreases secrets.len(),
{
    if secrets.len() > 0 {
        let n = secrets.len() - 1;
        assert(secrets_written(secrets.drop_last(), found.drop_last(), written.drop_last(), mode)) by {
            assert forall|j: int| 0 <= j < n implies (if !found.drop_last()[j] || mode == ImportMode::Overwrite {
                (#[trigger] written.drop_last()[j]) matches Some(w) && written_as(w, secrets.drop_last()[j])
            } else {
                written.drop_last()[j] is None
            }) by {
                assert(written.drop_last()[j] == written[j]);
            }
        }
        lemma_secrets_written_count(secrets.drop_last(), found.drop_last(), written.drop_last(), mode);
        assert(written[n] == written.last());
    }
}

/// What an import writes is what it counts: the bundle secrets it added or
/// overwrote, each written once with the bundle's key, value and
/// description, number exactly `secrets_imported + secrets_overwritten`; in
/// `Skip` mode every secret whose key was missing is written, and in
/// `Overwrite` mode every secret of the bundle is.
pub proof fn lemma_import_writes_what_it_counts(
    s: ImportSummary,
    projects: Seq<ExportProject>,
    project_found: Seq<bool>,
    secret_found: Seq<Seq<bool>>,
    written: Seq<Seq<Option<Secret>>>,
    mode: ImportMode,
)
    requires
        planned_import(s, projects, project_found, secret_found, mode),
        import_wrote(projects, secret_found, written, mode),
    ensures
        count_written_all(written) == s.secrets_imported + s.secrets_overwritten,
        mode == ImportMode::Overwrite ==> count_written_all(written) == total_secrets(projects),
{
    lemma_import_wrote_count(projects, secret_found, written, mode);
}

proof fn lemma_import_wrote_count(projects: Seq<ExportProject>, secret_found: Seq<Seq<bool>>, written: Seq<Seq<Option<Secret>>>, mode: ImportMode)
    requires
        import_wrote(projects, secret_found, written, mode),
    ensures
        mode == ImportMode::Overwrite ==> count_written_all(written) == total_secrets(projects),
        mode == ImportMode::Skip ==> count_written_all(written) + count_true_all(secret_found) == total_secrets(projects),
    decreases projects.len(),
{
    if projects.len() > 0 {
        let n = projects.len() - 1;
        assert(import_wrote(projects.drop_last(), secret_found.drop_last(), written.drop_last(), mode)) by {
            assert forall|i: int| 0 <= i < n implies secrets_written(projects.drop_last()[i].secrets@, secret_found.drop_last()[i],
                #[trigger] written.drop_last()[i], mode) by {
                assert(written.drop_last()[i] == written[i]);
                assert(projects.drop_last()[i] == projects[i]);
                assert(secret_found.drop_last()[i] == secret_found[i]);
            }
        }
        lemma_import_wrote_count(projects.drop_last(), secret_found.drop_last(), written.drop_last(), mode);
        assert(secrets_written(projects[n].secrets@, secret_found[n], written[n], mode));
        lemma_secrets_written_count(projects[n].secrets@, secret_found[n], written[n], mode);
        assert(projects.last() == projects[n]);
    }
}

/// Project `i` of `projects` has a blank name, or one of its secrets a blank key.
pub open spec fn blank_at(projects: Seq<ExportProject>, i: int) -> bool {
    0 <= i < projects.len() && (spec_trim(projects[i].name@).len() == 0
        || exists|j: int| 0 <= j < projects[i].secrets@.len() && spec_trim((#[trigger] projects[i].secrets@[j]).key@).len() == 0)
}

/// The errors an import can give.
pub open spec fn import_error(e: AppError) -> bool {
    e matches AppError::Invalid(_) || e matches AppError::AlreadyExists(_) || e matches AppError::NotFound(_)
        || e matches AppError::Database(_) || e matches AppError::Crypto(_)
}

/// The name and description a missing bundle project is created with.
pub fn project_fields(p: &ExportProject) -> (f: (&str, Option<&str>))
    ensures
        f.0@ == p.name@,
        p.description is None <==> f.1 is None,
        p.description matches Some(x) ==> f.1 matches Some(y) && y@ == x@,
{
    let description = match &p.description {
        Some(d) => Some(d.as_str()),
        None => None,
    };
    (p.name.as_str(), description)
}

/// The key, value, description and tags a missing bundle secret is added with.
pub fn add_fields(s: &ExportSecret) -> (f: (&str, &str, Option<&str>, &[String]))
    ensures
        f.0@ == s.key@,
        f.1@ == s.value@,
        s.description is None <==> f.2 is None,
        s.description matches Some(x) ==> f.2 matches Some(y) && y@ == x@,
        f.3@ == s.tags@,
{
    let description = match &s.description {
        Some(d) => Some(d.as_str()),
        None => None,
    };
    (s.key.as_str(), s.value.as_str(), description, s.tags.as_slice())
}

/// Import a bundle into the vault, atomically: the whole import runs in one
/// transaction that is committed on success and rolled back on failure.
/// Projects are matched by name (created if missing); secrets are matched by
/// key within their project.
pub fn import(conn: &rusqlite::Connection, vault_key: &[u8; KEY_LEN], bundle: &ExportBundle, mode: ImportMode) -> (r: Result<ImportSummary, AppError>)
    requires
        bundle.projects@.len() <= u32::MAX,
        total_secrets(bundle.projects@) <= u32::MAX,
    ensures
        r matches Ok(s) ==> summary_accounts_for(s, *bundle, mode),
        r matches Ok(s) ==> exists|project_found: Seq<bool>, secret_found: Seq<Seq<bool>>|
            #[trigger] planned_import(s, bundle.projects@, project_found, secret_found, mode),
        r matches Ok(s) ==> exists|project_found: Seq<bool>, secret_found: Seq<Seq<bool>>, written: Seq<Seq<Option<Secret>>>|
            #[trigger] planned_import(s, bundle.projects@, project_found, secret_found, mode)
            && #[trigger] import_wrote(bundle.projects@, secret_found, written, mode),
        r matches Err(e) ==> import_error(e),
        r matches Err(AppError::Invalid(_)) ==> exists|i: int| #[trigger] blank_at(bundle.projects@, i),
{
    lift(sql_execute_batch(conn, "BEGIN"))?;
    match import_inner(conn, vault_key, bundle, mode) {
        Ok((summary, pf, sf, wr)) => {
            lift(sql_execute_batch(conn, "COMMIT"))?;
            let ghost gpf: Seq<bool> = pf@;
            let ghost gsf: Seq<Seq<bool>> = sf@;
            let ghost gwr: Seq<Seq<Option<Secret>>> = wr@;
            let out: Result<ImportSummary, AppError> = Ok(summary);
            assert(out matches Ok(s) && planned_import(s, bundle.projects@, gpf, gsf, mode)
                && import_wrote(bundle.projects@, gsf, gwr, mode));
            out
        },
        Err(e) => {
            let _ = sql_execute_batch(conn, "ROLLBACK");
            Err(e)
        },
    }
}

/// The import's work inside the transaction. Besides the summary it hands back
/// the answers the database gave to its existence lookups, which the summary
/// is counted from.
fn import_inner(conn: &rusqlite::Connection, vault_key: &[u8; KEY_LEN], bundle: &ExportBundle, mode: ImportMode)
    -> (r: Result<(ImportSummary, Ghost<Seq<bool>>, Ghost<Seq<Seq<bool>>>, Ghost<Seq<Seq<Option<Secret>>>>), AppError>)
    requires
        bundle.projects@.len() <= u32::MAX,
        total_secrets(bundle.projects@) <= u32::MAX,
    ensures
        r matches Ok((s, pf, sf, wr)) ==> summary_accounts_for(s, *bundle, mode) && planned_import(s, bundle.projects@, pf@, sf@, mode)
            && import_wrote(bundle.projects@, sf@, wr@, mode),
        r matches Err(e) ==> import_error(e),
        r matches Err(AppError::Invalid(_)) ==> exists|i: int| #[trigger] blank_at(bundle.projects@, i),
{
    let mut summary = ImportSummary::default();
    let ghost ps = bundle.projects@;
    let ghost mut pf: Seq<bool> = Seq::empty();
    let ghost mut sf: Seq<Seq<bool>> = Seq::empty();
    let ghost mut wr: Seq<Seq<Option<Secret>>> = Seq::empty();
    let mut i: usize = 0;
    while i < bundle.projects.len()
        invariant
            ps == bundle.projects@,
            ps.len() <= u32::MAX,
            total_secrets(ps) <= u32::MAX,
            0 <= i <= ps.len(),
            summary.projects_created + summary.projects_merged == i,
            summary.secrets_imported + summary.secrets_overwritten + summary.secrets_skipped == total_secrets(ps.take(i as int)),
            mode == ImportMode::Skip ==> summary.secrets_overwritten == 0,
            mode == ImportMode::Overwrite ==> summary.secrets_skipped == 0,
            pf.len() == i,
            sf.len() == i,
            forall|k: int| 0 <= k < i ==> (#[trigger] sf[k]).len() == ps[k].secrets@.len(),
            summary.projects_merged == count_true(pf),
            summary.secrets_imported + count_true_all(sf) == total_secrets(ps.take(i as int)),
            mode == ImportMode::Overwrite ==> summary.secrets_overwritten == count_true_all(sf),
            mode == ImportMode::Skip ==> summary.secrets_skipped == count_true_all(sf),
            wr.len() == i,
            forall|k: int| 0 <= k < i ==> secrets_written(ps[k].secrets@, sf[k], #[trigger] wr[k], mode),
        decreases ps.len() - i,
    {
        let p = &bundle.projects[i];
        let found = repo::get_project_by_name(conn, p.name.as_str())?;
        let paction = project_action(found.is_some());
        let project = match found {
            Some(existing) => existing,
            None => {
                let (name, description) = project_fields(p);
                match repo::create_project(conn, name, description) {
                    Ok(np) => np,
                    Err(e) => {
                        proof {
                            if e matches AppError::Invalid(_) {
                                assert(blank_at(ps, i as int));
                            }
                        }
                        return Err(e);
                    },
                }
            },
        };
        count_project(&mut summary, paction);
        proof {
            lemma_total_secrets_prefix(ps, i as int);
            assert(pf.push(found is Some).drop_last() =~= pf);
            pf = pf.push(found is Some);
        }
        let ghost base = total_secrets(ps.take(i as int));
        let ghost mut cur: Seq<bool> = Seq::empty();
        let ghost mut cur_w: Seq<Option<Secret>> = Seq::empty();
        let mut j: usize = 0;
        while j < p.secrets.len()
            invariant
                ps == bundle.projects@,
                0 <= i < ps.len(),
                *p == ps[i as int],
                base + p.secrets@.len() <= u32::MAX,
                0 <= j <= p.secrets@.len(),
                summary.secrets_imported + summary.secrets_overwritten + summary.secrets_skipped == base + j,
                summary.projects_created + summary.projects_merged == i + 1,
                mode == ImportMode::Skip ==> summary.secrets_overwritten == 0,
                mode == ImportMode::Overwrite ==> summary.secrets_skipped == 0,
                pf.len() == i + 1,
                sf.len() == i,
                forall|k: int| 0 <= k < i ==> (#[trigger] sf[k]).len() == ps[k].secrets@.len(),
                summary.projects_merged == count_true(pf),
                cur.len() == j,
                summary.secrets_imported + count_true_all(sf) + count_true(cur) == base + j,
                mode == ImportMode::Overwrite ==> summary.secrets_overwritten == count_true_all(sf) + count_true(cur),
                mode == ImportMode::Skip ==> summary.secrets_skipped == count_true_all(sf) + count_true(cur),
                wr.len() == i,
                forall|k: int| 0 <= k < i ==> secrets_written(ps[k].secrets@, sf[k], #[trigger] wr[k], mode),
                cur_w.len() == j,
                forall|k: int| 0 <= k < j ==> (if !cur[k] || mode == ImportMode::Overwrite {
                    (#[trigger] cur_w[k]) matches Some(w) && written_as(w, p.secrets@[k])
                } else {
                    cur_w[k] is None
                }),
            decreases p.secrets@.len() - j,
        {
            let s = &p.secrets[j];
            let existing = repo::get_secret_id_by_key(conn, project.id.as_str(), s.key.as_str())?;
            let saction = secret_action(existing.is_some(), mode);
            let ghost mut w: Option<Secret> = None;
            match saction {
                SecretAction::Import => {
                    let (key, value, description, tags) = add_fields(s);
                    match repo::add_secret(conn, vault_key, project.id.as_str(), key, value, description, tags) {
                        Ok(stored) => {
                            proof {
                                w = Some(stored);
                            }
                        },
                        Err(e) => {
                            proof {
                                if e matches AppError::Invalid(_) {
                                    assert(spec_trim(ps[i as int].secrets@[j as int].key@).len() == 0);
                                    assert(blank_at(ps, i as int));
                                }
                            }
                            return Err(e);
                        },
                    }
                },
                SecretAction::Overwrite => {
                    assert(existing is Some);
                    if let Some(existing_id) = &existing {
                        let (key, value, desc, tags) = overwrite_fields(s);
                        match repo::update_secret(conn, vault_key, existing_id.as_str(), key, value, desc, tags) {
                            Ok(stored) => {
                                proof {
                                    w = Some(stored);
                                }
                            },
                            Err(e) => {
                                proof {
                                    if e matches AppError::Invalid(_) {
                                        assert(spec_trim(ps[i as int].secrets@[j as int].key@).len() == 0);
                                        assert(blank_at(ps, i as int));
                                    }
                                }
                                return Err(e);
                            },
                        }
                    }
                },
                SecretAction::Skip => {},
            }
            count_secret(&mut summary, saction);
            proof {
                assert(cur.push(existing is Some).drop_last() =~= cur);
                cur = cur.push(existing is Some);
                cur_w = cur_w.push(w);
            }
            j = j + 1;
        }
        proof {
            assert(sf.push(cur).drop_last() =~= sf);
            assert(secrets_written(ps[i as int].secrets@, cur, cur_w, mode));
            sf = sf.push(cur);
            wr = wr.push(cur_w);
        }
        i = i + 1;
    }
    proof {
        assert(ps.take(ps.len() as int) =~= ps);
    }
    Ok((summary, Ghost(pf), Ghost(sf), Ghost(wr)))
}

} // verus!
