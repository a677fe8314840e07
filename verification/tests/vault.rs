use secret_manager_lib::crypto::{Argon2Params, KEY_LEN};
use secret_manager_lib::error::AppError;
use secret_manager_lib::vault::{
    backoff_delay_ms, change_password, check_rate_limit, clear_biometric, create_with_params, record_failure,
    record_success, recover, regenerate_recovery, unlock, unwrap_master_from_biometric, wrap_master_for_biometric,
    RECOVERY_CODE_COUNT,
};

// Cheap KDF params so the suite doesn't pay the production cost per `create`.
fn fast_params() -> Argon2Params {
    Argon2Params { m_cost: 1024, t_cost: 1, p_cost: 1 }
}

#[test]
fn create_then_unlock_v2() {
    let (k1, sc, codes) = create_with_params("hunter2", fast_params()).unwrap();
    assert_eq!(codes.len(), RECOVERY_CODE_COUNT);
    let k2 = unlock(&sc, "hunter2").unwrap();
    assert_eq!(k1, k2);
}

#[test]
fn unlock_wrong_password_fails() {
    let (_k, sc, _codes) = create_with_params("hunter2", fast_params()).unwrap();
    assert!(matches!(unlock(&sc, "wrong"), Err(AppError::WrongPassword)));
}

#[test]
fn change_password_rewraps_same_master_key() {
    let (key, mut sc, _codes) = create_with_params("old-pw", fast_params()).unwrap();
    let new_key = change_password(&mut sc, "old-pw", "new-pw").unwrap();
    assert_eq!(new_key, key, "master key stable across password change");
    assert!(matches!(unlock(&sc, "old-pw"), Err(AppError::WrongPassword)));
    assert_eq!(unlock(&sc, "new-pw").unwrap(), key);
}

#[test]
fn recover_with_code_resets_password() {
    let (key, mut sc, codes) = create_with_params("forgotten", fast_params()).unwrap();
    let entered = codes[2].to_lowercase();
    let mk = recover(&mut sc, &entered, "brand-new-pw").unwrap();
    assert_eq!(mk, key);
    assert!(matches!(unlock(&sc, "forgotten"), Err(AppError::WrongPassword)));
    assert_eq!(unlock(&sc, "brand-new-pw").unwrap(), key);
}

#[test]
fn recover_with_bad_code_fails() {
    let (_key, mut sc, _codes) = create_with_params("pw", fast_params()).unwrap();
    assert!(matches!(
        recover(&mut sc, "ZZZZZ-ZZZZZ-ZZZZZ-ZZZZZ-ZZZZZ-ZZZZZ", "new"),
        Err(AppError::WrongRecoveryCode)
    ));
}

#[test]
fn backoff_schedule_matches_spec() {
    assert_eq!(backoff_delay_ms(1), 0);
    assert_eq!(backoff_delay_ms(3), 0);
    assert_eq!(backoff_delay_ms(4), 5_000);
    assert_eq!(backoff_delay_ms(5), 15_000);
    assert_eq!(backoff_delay_ms(6), 30_000);
    assert_eq!(backoff_delay_ms(7), 60_000);
    assert_eq!(backoff_delay_ms(8), 300_000);
    assert_eq!(backoff_delay_ms(99), 300_000);
}

#[test]
fn rate_limit_blocks_until_expiry_then_clears_on_success() {
    let (_k, mut sc, _c) = create_with_params("pw", fast_params()).unwrap();
    // 4 failures -> locked for 5s from now.
    for _ in 0..4 {
        record_failure(&mut sc, 1_000);
    }
    assert!(matches!(check_rate_limit(&sc, 1_000), Err(AppError::RateLimited { .. })));
    // After the window it's allowed again.
    assert!(check_rate_limit(&sc, 1_000 + 5_001).is_ok());
    record_success(&mut sc);
    assert_eq!(sc.failed_attempts, 0);
    assert_eq!(sc.locked_until_ms, 0);
}

#[test]
fn biometric_wrap_round_trips() {
    let (key, mut sc, _c) = create_with_params("pw", fast_params()).unwrap();
    let token = [7u8; KEY_LEN];
    wrap_master_for_biometric(&mut sc, &key, &token).unwrap();
    assert!(sc.biometric_wrap.is_some());
    let got = unwrap_master_from_biometric(&sc, &token).unwrap();
    assert_eq!(got, key);
    // Wrong token fails.
    let bad = [8u8; KEY_LEN];
    assert!(unwrap_master_from_biometric(&sc, &bad).is_err());
    clear_biometric(&mut sc);
    assert!(sc.biometric_wrap.is_none());
}

#[test]
fn regenerate_recovery_invalidates_old_codes() {
    let (key, mut sc, _old_codes) = create_with_params("pw", fast_params()).unwrap();
    let new_codes = regenerate_recovery(&mut sc, &key).unwrap();
    assert_eq!(new_codes.len(), RECOVERY_CODE_COUNT);
    assert_eq!(recover(&mut sc, &new_codes[0], "pw2").unwrap(), key);
    // Re-fetch: after recover, sc is mutated; use a fresh vault for the old-code check.
    let (k2, mut sc2, old2) = create_with_params("pw", fast_params()).unwrap();
    let regen = regenerate_recovery(&mut sc2, &k2).unwrap();
    assert!(!regen.is_empty());
    assert!(matches!(recover(&mut sc2, &old2[0], "pw3"), Err(AppError::WrongRecoveryCode)));
}
