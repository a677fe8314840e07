use secret_manager_lib::crypto::{Argon2Params, KEY_LEN};
use secret_manager_lib::error::AppError;
use secret_manager_lib::sidecar::Sidecar;
use secret_manager_lib::vault::{
    attempt_unlock, change_password, check_rate_limit, create, create_with_params, has_recovery, key_hex,
    record_failure, recover, unlock, unwrap_master_from_biometric,
};

fn fast() -> Argon2Params {
    Argon2Params { m_cost: 1024, t_cost: 1, p_cost: 1 }
}

fn same_sidecar(a: &Sidecar, b: &Sidecar) -> bool {
    a.format == b.format
        && a.version == b.version
        && a.kdf == b.kdf
        && a.pw_salt == b.pw_salt
        && a.master_wrap == b.master_wrap
        && a.verify == b.verify
        && a.recovery.len() == b.recovery.len()
        && a.failed_attempts == b.failed_attempts
        && a.locked_until_ms == b.locked_until_ms
        && a.biometric_wrap == b.biometric_wrap
}

fn copy_sidecar(a: &Sidecar) -> Sidecar {
    Sidecar {
        format: a.format.clone(),
        version: a.version,
        kdf: a.kdf,
        pw_salt: a.pw_salt.clone(),
        master_wrap: a.master_wrap.clone(),
        verify: a.verify.clone(),
        recovery: a
            .recovery
            .iter()
            .map(|e| secret_manager_lib::sidecar::RecoveryEntry { salt: e.salt.clone(), wrap: e.wrap.clone() })
            .collect(),
        failed_attempts: a.failed_attempts,
        locked_until_ms: a.locked_until_ms,
        biometric_wrap: a.biometric_wrap.clone(),
    }
}

#[test]
fn key_hex_is_lowercase_hex_of_key() {
    let key = [0xABu8; KEY_LEN];
    assert_eq!(key_hex(&key), "ab".repeat(32));
    let mut k2 = [0u8; KEY_LEN];
    k2[0] = 0x01;
    k2[31] = 0xfe;
    let h = key_hex(&k2);
    assert_eq!(h.len(), 64);
    assert!(h.starts_with("01"));
    assert!(h.ends_with("fe"));
}

#[test]
fn create_rejects_empty_password() {
    assert!(matches!(create_with_params("", fast()), Err(AppError::Invalid(_))));
    assert!(matches!(create(""), Err(AppError::Invalid(_))));
}

#[test]
fn created_sidecar_fields() {
    let (_k, sc, codes) = create_with_params("pw", fast()).unwrap();
    assert_eq!(sc.format, "secret-manager-meta");
    assert_eq!(sc.version, 3);
    assert_eq!(sc.kdf, fast());
    assert_eq!(sc.failed_attempts, 0);
    assert_eq!(sc.locked_until_ms, 0);
    assert!(sc.biometric_wrap.is_none());
    assert_eq!(sc.recovery.len(), 8);
    assert!(has_recovery(&sc));
    assert_eq!(sc.pw_salt.len(), 64);
    for c in &codes {
        // Six groups of five upper-case hex digits, dash-separated.
        assert_eq!(c.len(), 35);
        for (i, ch) in c.chars().enumerate() {
            if i % 6 == 5 {
                assert_eq!(ch, '-');
            } else {
                assert!(ch.is_ascii_digit() || ('A'..='F').contains(&ch));
            }
        }
    }
}

#[test]
fn recovery_code_without_dashes_or_with_spaces_works() {
    let (key, mut sc, codes) = create_with_params("pw", fast()).unwrap();
    let entered = codes[5].replace('-', " ");
    assert_eq!(recover(&mut sc, &entered, "n").unwrap(), key);
}

#[test]
fn unlock_corrupt_salt_is_crypto_error() {
    let (_k, mut sc, _c) = create_with_params("pw", fast()).unwrap();
    sc.pw_salt = "zz".into();
    assert!(matches!(unlock(&sc, "pw"), Err(AppError::Crypto(_))));
}

#[test]
fn change_password_failures_leave_sidecar_unchanged() {
    let (_k, mut sc, _c) = create_with_params("pw", fast()).unwrap();
    let before = copy_sidecar(&sc);
    assert!(matches!(change_password(&mut sc, "pw", ""), Err(AppError::Invalid(_))));
    assert!(same_sidecar(&before, &sc));
    assert!(matches!(change_password(&mut sc, "not-pw", "x"), Err(AppError::WrongPassword)));
    assert!(same_sidecar(&before, &sc));
}

#[test]
fn recover_error_variants() {
    let (_k, mut sc, codes) = create_with_params("pw", fast()).unwrap();
    assert!(matches!(recover(&mut sc, &codes[0], ""), Err(AppError::Invalid(_))));
    sc.recovery.clear();
    assert!(matches!(recover(&mut sc, &codes[0], "x"), Err(AppError::NoRecovery)));
}

#[test]
fn recover_resets_rate_limit() {
    let (key, mut sc, codes) = create_with_params("pw", fast()).unwrap();
    for _ in 0..5 {
        record_failure(&mut sc, 10);
    }
    assert_eq!(sc.failed_attempts, 5);
    assert_eq!(recover(&mut sc, &codes[1], "again").unwrap(), key);
    assert_eq!(sc.failed_attempts, 0);
    assert_eq!(sc.locked_until_ms, 0);
}

#[test]
fn retry_after_is_rounded_up_seconds() {
    let (_k, mut sc, _c) = create_with_params("pw", fast()).unwrap();
    sc.locked_until_ms = 10_000;
    assert!(matches!(check_rate_limit(&sc, 5_000), Err(AppError::RateLimited { retry_after_secs: 5 })));
    assert!(matches!(check_rate_limit(&sc, 4_999), Err(AppError::RateLimited { retry_after_secs: 6 })));
    assert!(matches!(check_rate_limit(&sc, 9_999), Err(AppError::RateLimited { retry_after_secs: 1 })));
    assert!(check_rate_limit(&sc, 10_000).is_ok());
}

#[test]
fn record_failure_sets_window_and_saturates() {
    let (_k, mut sc, _c) = create_with_params("pw", fast()).unwrap();
    for _ in 0..3 {
        record_failure(&mut sc, 100);
    }
    assert_eq!(sc.locked_until_ms, 100);
    record_failure(&mut sc, 100);
    assert_eq!(sc.locked_until_ms, 5_100);
    sc.failed_attempts = u32::MAX;
    record_failure(&mut sc, 0);
    assert_eq!(sc.failed_attempts, u32::MAX);
    assert_eq!(sc.locked_until_ms, 300_000);
}

#[test]
fn attempt_unlock_counts_and_blocks() {
    let (key, mut sc, _c) = create_with_params("pw", fast()).unwrap();
    for _ in 0..4 {
        assert!(matches!(attempt_unlock(&mut sc, "bad", 1_000), Err(AppError::WrongPassword)));
    }
    assert_eq!(sc.failed_attempts, 4);
    assert_eq!(sc.locked_until_ms, 6_000);
    // Blocked: refused without changing the counters, even with the right password.
    assert!(matches!(attempt_unlock(&mut sc, "pw", 2_000), Err(AppError::RateLimited { retry_after_secs: 4 })));
    assert_eq!(sc.failed_attempts, 4);
    // After the window the right password works and clears the counters.
    assert_eq!(attempt_unlock(&mut sc, "pw", 6_000).unwrap(), key);
    assert_eq!(sc.failed_attempts, 0);
    assert_eq!(sc.locked_until_ms, 0);
}

#[test]
fn biometric_unwrap_without_wrap_is_no_recovery() {
    let (_k, sc, _c) = create_with_params("pw", fast()).unwrap();
    assert!(matches!(unwrap_master_from_biometric(&sc, &[1u8; KEY_LEN]), Err(AppError::NoRecovery)));
}

#[test]
fn regenerate_with_wrong_key_is_vault_locked() {
    let (_k, mut sc, _c) = create_with_params("pw", fast()).unwrap();
    let wrong = [3u8; KEY_LEN];
    assert!(matches!(
        secret_manager_lib::vault::regenerate_recovery(&mut sc, &wrong),
        Err(AppError::VaultLocked)
    ));
}
