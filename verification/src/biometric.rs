//! Biometric (Touch ID) token storage. The platform keychain is not available
//! in this build, so every operation reports `AppError::Unsupported`.

use vstd::prelude::*;

use crate::error::AppError;

verus! {

/// Whether biometric unlock can be offered on this platform.
pub fn is_available() -> (b: bool)
    ensures
        !b,
{
    false
}

/// Store the biometric token in the platform keychain.
pub fn store_token(token: &[u8]) -> (r: Result<(), AppError>)
    ensures
        r matches Err(AppError::Unsupported),
{
    Err(AppError::Unsupported)
}

/// Fetch the biometric token from the platform keychain.
pub fn fetch_token() -> (r: Result<Vec<u8>, AppError>)
    ensures
        r matches Err(AppError::Unsupported),
{
    Err(AppError::Unsupported)
}

/// Delete the biometric token from the platform keychain.
pub fn delete_token() -> (r: Result<(), AppError>)
    ensures
        r matches Err(AppError::Unsupported),
{
    Err(AppError::Unsupported)
}

} // verus!
