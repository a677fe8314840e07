//! The plaintext sidecar that holds the vault's pre-unlock metadata. Reading
//! and writing the file is the command layer's business; the record and its
//! path live here.

use vstd::prelude::*;
use vstd::string::StringExecFns;

use crate::crypto::Argon2Params;

verus! {

/// One recovery code's wrap of the master key: the hex salt its key is derived
/// with, and the hex AES-256-GCM wrap.
#[derive(Debug)]
pub struct RecoveryEntry {
    pub salt: String,
    pub wrap: String,
}

/// Pre-unlock vault metadata (the `<vault>.meta.json` sidecar).
#[derive(Debug)]
pub struct Sidecar {
    pub format: String,
    pub version: u32,
    pub kdf: Argon2Params,
    pub pw_salt: String,
    pub master_wrap: String,
    pub verify: String,
    pub recovery: Vec<RecoveryEntry>,
    pub failed_attempts: u32,
    pub locked_until_ms: i64,
    pub biometric_wrap: Option<String>,
}

impl Sidecar {
    /// The sidecar's path for the vault at `db_path`: `<db_path>.meta.json`.
    pub fn sidecar_path(db_path: &str) -> (p: String)
        ensures
            p@ == db_path@ + ".meta.json"@,
    {
        let mut p = String::from_str(db_path);
        p.append(".meta.json");
        p
    }
}

} // verus!
