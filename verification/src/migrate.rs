//! The key and sidecar of a legacy plaintext vault (pre-v3), recovered from
//! its `vault_meta` rows. Moving the database file itself is the command
//! layer's business.

use vstd::prelude::*;
use vstd::string::StringExecFns;
use vstd::utf8::encode_utf8;

use crate::crypto::{self, spec_derive_key, Argon2Params, KEY_LEN};
use crate::encoding::{hex_decode, hex_encode, is_hex_text, spec_hex_decode};
use crate::error::AppError;
use crate::sidecar::{RecoveryEntry, Sidecar};
use crate::sqlite::sql_meta_value;
use crate::crypto::spec_verifies;
use crate::vault::{spec_unlock, spec_unwrap_master};

verus! {

/// The `vault_meta` value stored under `key` in a legacy database, if any.
pub fn meta(conn: &rusqlite::Connection, key: &str) -> Option<String> {
    match sql_meta_value(conn, key) {
        Ok(v) => Some(v),
        Err(_) => None,
    }
}

/// What a legacy database's `vault_meta` holds, the JSON-valued rows already
/// parsed (`Err` carries the parser's message).
pub struct LegacyMeta {
    /// v2 only: the password wrap of the master key (hex).
    pub master_wrap: Option<String>,
    /// v2: `kdf_params`.
    pub kdf_params: Option<Result<Argon2Params, String>>,
    /// v2: `pw_salt` (hex).
    pub pw_salt: Option<String>,
    /// Both: `verify_blob` (hex).
    pub verify_blob: Option<String>,
    /// v2: the recovery entries (none when absent or unreadable).
    pub recovery: Vec<RecoveryEntry>,
    /// v1: `argon2_salt` (hex).
    pub argon2_salt: Option<String>,
    /// v1: `argon2_params`.
    pub argon2_params: Option<Result<Argon2Params, String>>,
}

/// A present value, or `VaultMissing`.
fn required<T>(v: Option<T>) -> (r: Result<T, AppError>)
    ensures
        v matches Some(x) ==> r matches Ok(y) && y == x,
        v is None ==> r matches Err(AppError::VaultMissing),
{
    match v {
        Some(x) => Ok(x),
        None => Err(AppError::VaultMissing),
    }
}

/// Parsed cost parameters, or `Invalid` with the parser's message.
fn parsed_params(p: Result<Argon2Params, String>) -> (r: Result<Argon2Params, AppError>)
    ensures
        p matches Ok(x) ==> r matches Ok(y) && y == x,
        p is Err ==> r matches Err(AppError::Invalid(_)),
{
    match p {
        Ok(x) => Ok(x),
        Err(m) => Err(AppError::Invalid(m)),
    }
}

/// Decode a hex field, or `Crypto(what)`.
fn decoded(text: &String, what: &str) -> (r: Result<Vec<u8>, AppError>)
    ensures
        r is Ok <==> is_hex_text(text@),
        r matches Ok(v) ==> v@ == spec_hex_decode(text@),
        r matches Err(e) ==> e matches AppError::Crypto(_),
{
    match hex_decode(text.as_str()) {
        Ok(v) => Ok(v),
        Err(_) => Err(AppError::crypto(what)),
    }
}

/// A freshly migrated sidecar: format 3, no failed attempts, no biometric wrap.
pub open spec fn fresh_v3(sc: Sidecar) -> bool {
    &&& sc.format@ == "secret-manager-meta"@
    &&& sc.version == 3
    &&& sc.failed_attempts == 0
    &&& sc.locked_until_ms == 0
    &&& sc.biometric_wrap is None
}

/// How reading a legacy vault's metadata with a password turns out.
pub enum LegacyOutcome {
    /// A required row is absent (`VaultMissing`).
    Missing,
    /// Stored cost parameters did not parse (`Invalid`).
    Unparsable,
    /// A hex field is corrupt or Argon2 refused the inputs (`Crypto`).
    Corrupt,
    /// The password does not open the vault (`WrongPassword`).
    WrongPassword,
    /// The password opens the vault to this key.
    Opens(Seq<u8>),
}

/// What [`read_legacy`] finds in `meta` for `password`, checking the rows in
/// the order it reads them.
pub open spec fn spec_read_legacy(meta: LegacyMeta, password: Seq<char>) -> LegacyOutcome {
    let pw = encode_utf8(password);
    match meta.master_wrap {
        Some(w) => match meta.kdf_params {
            None => LegacyOutcome::Missing,
            Some(Err(_)) => LegacyOutcome::Unparsable,
            Some(Ok(p)) => match meta.pw_salt {
                None => LegacyOutcome::Missing,
                Some(s) => if !is_hex_text(s@) || !is_hex_text(w@) {
                    LegacyOutcome::Corrupt
                } else {
                    match meta.verify_blob {
                        None => LegacyOutcome::Missing,
                        Some(v) => if !is_hex_text(v@) {
                            LegacyOutcome::Corrupt
                        } else {
                            match spec_derive_key(pw, spec_hex_decode(s@), p) {
                                None => LegacyOutcome::Corrupt,
                                Some(k) => match spec_unwrap_master(k, spec_hex_decode(w@), spec_hex_decode(v@)) {
                                    Some(m) => LegacyOutcome::Opens(m),
                                    None => LegacyOutcome::WrongPassword,
                                },
                            }
                        },
                    }
                },
            },
        },
        None => match meta.argon2_salt {
            None => LegacyOutcome::Missing,
            Some(s) => if !is_hex_text(s@) {
                LegacyOutcome::Corrupt
            } else {
                match meta.argon2_params {
                    None => LegacyOutcome::Missing,
                    Some(Err(_)) => LegacyOutcome::Unparsable,
                    Some(Ok(p)) => match meta.verify_blob {
                        None => LegacyOutcome::Missing,
                        Some(v) => if !is_hex_text(v@) {
                            LegacyOutcome::Corrupt
                        } else {
                            match spec_derive_key(pw, spec_hex_decode(s@), p) {
                                None => LegacyOutcome::Corrupt,
                                Some(k) => if spec_verifies(k, spec_hex_decode(v@)) {
                                    LegacyOutcome::Opens(k)
                                } else {
                                    LegacyOutcome::WrongPassword
                                },
                            }
                        },
                    },
                }
            },
        },
    }
}

/// Verify `password` against a legacy vault's metadata and build its v3
/// sidecar.
///
/// A v2 vault (it has `master_wrap`) keeps its master key, password wrap and
/// recovery entries. A v1 vault derived its key directly from the password;
/// that key must stay the master key (the secrets are encrypted under it), so
/// it is wrapped under the same password with a fresh salt. Either way the new
/// sidecar unlocks with `password` to the returned key.
pub fn read_legacy(meta: LegacyMeta, password: &str) -> (r: Result<([u8; KEY_LEN], Sidecar), AppError>)
    ensures
        spec_read_legacy(meta, password@) is Missing <==> r matches Err(AppError::VaultMissing),
        spec_read_legacy(meta, password@) is Unparsable <==> r matches Err(AppError::Invalid(_)),
        spec_read_legacy(meta, password@) is WrongPassword <==> r matches Err(AppError::WrongPassword),
        spec_read_legacy(meta, password@) is Corrupt ==> r matches Err(AppError::Crypto(_)),
        meta.master_wrap is Some && spec_read_legacy(meta, password@) is Opens
            ==> (r matches Ok((key, _)) && spec_read_legacy(meta, password@) == LegacyOutcome::Opens(key@)),
        meta.master_wrap is None && spec_read_legacy(meta, password@) is Opens
            ==> ((r matches Ok((key, _)) && spec_read_legacy(meta, password@) == LegacyOutcome::Opens(key@))
                || r matches Err(AppError::Crypto(_))),
        r matches Ok((key, sc)) ==> spec_read_legacy(meta, password@) == LegacyOutcome::Opens(key@)
            && meta.verify_blob == Some(sc.verify),
        r matches Ok((key, sc)) ==> fresh_v3(sc) && spec_unlock(sc, password@) == Some(key@),
        r matches Ok((key, sc)) ==> (meta.master_wrap is None ==> {
            &&& sc.recovery@.len() == 0
            &&& meta.argon2_salt matches Some(s)
            &&& meta.argon2_params matches Some(Ok(p))
            &&& sc.kdf == p
            &&& spec_derive_key(encode_utf8(password@), spec_hex_decode(s@), p) == Some(key@)
        }),
        r matches Ok((key, sc)) ==> (meta.master_wrap matches Some(w) ==> {
            &&& sc.recovery == meta.recovery
            &&& meta.kdf_params matches Some(Ok(p))
            &&& sc.kdf == p
            &&& meta.pw_salt matches Some(s)
            &&& meta.verify_blob matches Some(v)
            &&& spec_derive_key(encode_utf8(password@), spec_hex_decode(s@), p) matches Some(pw_key)
            &&& spec_unwrap_master(pw_key, spec_hex_decode(w@), spec_hex_decode(v@)) == Some(key@)
        }),
        meta.master_wrap is Some && meta.kdf_params is None ==> r matches Err(AppError::VaultMissing),
        meta.master_wrap is Some && (meta.kdf_params matches Some(Err(_))) ==> r matches Err(AppError::Invalid(_)),
        meta.master_wrap is Some && (meta.kdf_params matches Some(Ok(_))) && meta.pw_salt is None ==> r matches Err(AppError::VaultMissing),
        meta.master_wrap is None && meta.argon2_salt is None ==> r matches Err(AppError::VaultMissing),
{
    match meta.master_wrap {
        Some(master_wrap_hex) => {
            let params = parsed_params(required(meta.kdf_params)?)?;
            let pw_salt_hex = required(meta.pw_salt)?;
            let pw_salt = decoded(&pw_salt_hex, "corrupt salt")?;
            let master_wrap = decoded(&master_wrap_hex, "corrupt master wrap")?;
            let verify_hex = required(meta.verify_blob)?;
            let verify = decoded(&verify_hex, "corrupt verify")?;
            let pw_key = crypto::derive_key(password, pw_salt.as_slice(), &params)?;
            let master_key: [u8; KEY_LEN] = match crypto::decrypt(&pw_key, master_wrap.as_slice()) {
                Ok(k) => {
                    if k.len() == KEY_LEN {
                        crypto::to_array::<KEY_LEN>(k.as_slice())
                    } else {
                        return Err(AppError::WrongPassword);
                    }
                },
                Err(_) => return Err(AppError::WrongPassword),
            };
            if !crypto::verify_key(&master_key, verify.as_slice()) {
                return Err(AppError::WrongPassword);
            }
            let salt_hex = hex_encode(pw_salt.as_slice());
            let wrap_hex = hex_encode(master_wrap.as_slice());
            proof {
                crate::encoding::lemma_hex_round_trip(pw_salt@);
                crate::encoding::lemma_hex_round_trip(master_wrap@);
            }
            let sc = Sidecar {
                format: String::from_str("secret-manager-meta"),
                version: 3,
                kdf: params,
                pw_salt: salt_hex,
                master_wrap: wrap_hex,
                verify: verify_hex,
                recovery: meta.recovery,
                failed_attempts: 0,
                locked_until_ms: 0,
                biometric_wrap: None,
            };
            Ok((master_key, sc))
        },
        None => {
            let salt_hex = required(meta.argon2_salt)?;
            let salt = decoded(&salt_hex, "corrupt salt")?;
            let params = parsed_params(required(meta.argon2_params)?)?;
            let verify_hex = required(meta.verify_blob)?;
            let verify = decoded(&verify_hex, "corrupt verify")?;
            let key = crypto::derive_key(password, salt.as_slice(), &params)?;
            if !crypto::verify_key(&key, verify.as_slice()) {
                return Err(AppError::WrongPassword);
            }
            let pw_salt = crypto::generate_salt()?;
            let pw_key = crypto::derive_key(password, pw_salt.as_slice(), &params)?;
            let master_wrap = crypto::encrypt(&pw_key, key.as_slice())?;
            let pw_salt_hex = hex_encode(pw_salt.as_slice());
            let wrap_hex = hex_encode(master_wrap.as_slice());
            proof {
                crate::encoding::lemma_hex_round_trip(pw_salt@);
                crate::encoding::lemma_hex_round_trip(master_wrap@);
            }
            let sc = Sidecar {
                format: String::from_str("secret-manager-meta"),
                version: 3,
                kdf: params,
                pw_salt: pw_salt_hex,
                master_wrap: wrap_hex,
                verify: verify_hex,
                recovery: Vec::new(),
                failed_attempts: 0,
                locked_until_ms: 0,
                biometric_wrap: None,
            };
            Ok((key, sc))
        },
    }
}

} // verus!
