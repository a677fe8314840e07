//! Application error type.

use vstd::prelude::*;
use vstd::string::StringExecFns;

verus! {

/// Application error. The command layer turns it into a message string.
#[derive(Debug)]
pub enum AppError {
    VaultLocked,
    VaultExists,
    VaultMissing,
    WrongPassword,
    WrongRecoveryCode,
    NoRecovery,
    RateLimited { retry_after_secs: u64 },
    NotFound(String),
    AlreadyExists(String),
    Invalid(String),
    Database(rusqlite::Error),
    Crypto(String),
    Io(String),
    Unsupported,
}

impl AppError {
    /// A `Crypto` error carrying `msg`.
    pub fn crypto(msg: &str) -> (e: AppError)
        ensures
            e matches AppError::Crypto(m) && m@ == msg@,
    {
        AppError::Crypto(String::from_str(msg))
    }

    /// An `Invalid` error carrying `msg`.
    pub fn invalid(msg: &str) -> (e: AppError)
        ensures
            e matches AppError::Invalid(m) && m@ == msg@,
    {
        AppError::Invalid(String::from_str(msg))
    }
}

} // verus!
