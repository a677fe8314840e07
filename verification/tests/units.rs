use secret_manager_lib::biometric;
use secret_manager_lib::crypto::{
    derive_key, make_verify_blob, bytes_equal, decrypt, encrypt, random_bytes, verify_plaintext, wipe, Argon2Params, KEY_LEN, NONCE_LEN, TAG_LEN,
};
use secret_manager_lib::db::{key_pragma, migration_applied, now_ms, open_in_memory};
use secret_manager_lib::error::AppError;
use secret_manager_lib::migrate::{read_legacy, LegacyMeta};
use secret_manager_lib::models::{Project, SecretMeta};
use secret_manager_lib::repo::{
    carries_all_tags, filter_tagged, merge_project_fields, open_value, required_name, seal_value, search_pattern,
};
use secret_manager_lib::state::Session;
use secret_manager_lib::transfer::{
    check_bundle, check_passphrase, is_vault_file, open_vault_file, seal_bundle_text, ExportBundle, ImportMode,
    ImportSummary, VaultFile, EXPORT_FORMAT, VAULT_FORMAT,
};
use secret_manager_lib::vault;

#[test]
fn encrypt_layout_is_nonce_ciphertext_tag() {
    let key = [9u8; KEY_LEN];
    let ct = encrypt(&key, b"hello").unwrap();
    assert_eq!(ct.len(), NONCE_LEN + 5 + TAG_LEN);
    assert_eq!(decrypt(&key, &ct).unwrap(), b"hello");
    // Exactly nonce + tag with an empty plaintext.
    let empty = encrypt(&key, b"").unwrap();
    assert_eq!(empty.len(), NONCE_LEN + TAG_LEN);
    assert_eq!(decrypt(&key, &empty).unwrap(), b"");
    assert!(matches!(decrypt(&key, &empty[..NONCE_LEN + TAG_LEN - 1]), Err(AppError::Crypto(_))));
}

#[test]
fn random_bytes_has_requested_length() {
    assert_eq!(random_bytes(0).unwrap().len(), 0);
    assert_eq!(random_bytes(15).unwrap().len(), 15);
}

#[test]
fn verify_plaintext_bytes() {
    assert_eq!(verify_plaintext(), b"secret-manager-verify-v1".to_vec());
}

#[test]
fn wipe_zeroes_key() {
    let mut k = [0x5au8; KEY_LEN];
    wipe(&mut k);
    assert_eq!(k, [0u8; KEY_LEN]);
}

#[test]
fn bytes_equal_compares_contents() {
    assert!(bytes_equal(b"abc", b"abc"));
    assert!(!bytes_equal(b"abc", b"abd"));
    assert!(!bytes_equal(b"abc", b"ab"));
}

#[test]
fn default_params_are_production_costs() {
    assert_eq!(Argon2Params::default(), Argon2Params { m_cost: 65536, t_cost: 3, p_cost: 4 });
}

#[test]
fn derive_key_rejects_bad_params_and_short_salt() {
    let salt = b"0123456789abcdef";
    assert!(matches!(derive_key("pw", salt, &Argon2Params { m_cost: 4, t_cost: 1, p_cost: 1 }), Err(AppError::Crypto(_))));
    assert!(matches!(derive_key("pw", salt, &Argon2Params { m_cost: 1024, t_cost: 0, p_cost: 1 }), Err(AppError::Crypto(_))));
    assert!(matches!(derive_key("pw", b"short", &Argon2Params { m_cost: 1024, t_cost: 1, p_cost: 1 }), Err(AppError::Crypto(_))));
    assert!(matches!(derive_key("pw", salt, &Argon2Params { m_cost: 1024, t_cost: 1, p_cost: u32::MAX }), Err(AppError::Crypto(_))));
}

#[test]
fn key_pragma_text() {
    assert_eq!(key_pragma("abcd"), "PRAGMA key = \"x'abcd'\";");
}

#[test]
fn migration_applied_compares_versions() {
    assert!(!migration_applied("001", &None));
    assert!(migration_applied("001", &Some("001".to_string())));
    assert!(migration_applied("001", &Some("002".to_string())));
    assert!(!migration_applied("002", &Some("001".to_string())));
}

#[test]
fn now_ms_is_after_2020() {
    assert!(now_ms() > 1_577_836_800_000);
}

#[test]
fn in_memory_db_opens() {
    assert!(open_in_memory().is_ok());
}

#[test]
fn biometric_is_unsupported_here() {
    assert!(!biometric::is_available());
    assert!(matches!(biometric::store_token(&[1, 2]), Err(AppError::Unsupported)));
    assert!(matches!(biometric::fetch_token(), Err(AppError::Unsupported)));
    assert!(matches!(biometric::delete_token(), Err(AppError::Unsupported)));
}

#[test]
fn session_locks_and_reports() {
    let mut s = Session::new();
    assert!(!s.is_unlocked());
    assert!(matches!(s.db(), Err(AppError::VaultLocked)));
    assert!(matches!(s.db_and_key(), Err(AppError::VaultLocked)));
    s.db = Some(open_in_memory().unwrap());
    s.key = Some([1u8; KEY_LEN]);
    s.path = Some("/v/vault.db".into());
    assert!(s.is_unlocked());
    assert!(s.db_and_key().is_ok());
    s.lock();
    assert!(!s.is_unlocked());
    assert!(s.key.is_none());
    assert!(s.db().is_ok());
    assert_eq!(s.path.as_deref(), Some("/v/vault.db"));
}

#[test]
fn required_name_trims_and_rejects_blank() {
    assert_eq!(required_name("  web \n", "m").unwrap(), "web");
    match required_name(" \t ", "name must not be empty") {
        Err(AppError::Invalid(m)) => assert_eq!(m, "name must not be empty"),
        _ => panic!("expected Invalid"),
    }
}

#[test]
fn search_pattern_wraps_trimmed_query() {
    assert_eq!(search_pattern("  AWS "), "%AWS%");
    assert_eq!(search_pattern(""), "%%");
}

#[test]
fn merge_project_fields_keeps_and_replaces() {
    let p = || Project { id: "i".into(), name: "old".into(), description: Some("d".into()), created_at: 1, updated_at: 2 };
    let (n, d) = merge_project_fields(p(), None, None).unwrap();
    assert_eq!((n.as_str(), d.as_deref()), ("old", Some("d")));
    let (n, d) = merge_project_fields(p(), Some(" new "), Some(None)).unwrap();
    assert_eq!((n.as_str(), d), ("new", None));
    let (_, d) = merge_project_fields(p(), None, Some(Some("x"))).unwrap();
    assert_eq!(d.as_deref(), Some("x"));
    assert!(matches!(merge_project_fields(p(), Some("  "), None), Err(AppError::Invalid(_))));
}

fn meta(key: &str, tags: &[&str]) -> SecretMeta {
    SecretMeta {
        id: key.to_lowercase(),
        project_id: "p".into(),
        key: key.into(),
        description: None,
        tags: tags.iter().map(|t| t.to_string()).collect(),
        created_at: 0,
        updated_at: 0,
    }
}

#[test]
fn tag_filter_keeps_order_and_requires_all() {
    let metas = vec![meta("A", &["aws", "prod"]), meta("B", &["aws"]), meta("C", &["prod", "aws", "x"])];
    let wanted = vec!["aws".to_string(), "prod".to_string()];
    let out = filter_tagged(metas, &wanted);
    let keys: Vec<&str> = out.iter().map(|m| m.key.as_str()).collect();
    assert_eq!(keys, vec!["A", "C"]);
    assert!(carries_all_tags(&vec!["a".to_string()], &[]));
    assert!(!carries_all_tags(&vec![], &["a".to_string()]));
}

#[test]
fn value_seal_open_round_trip() {
    let key = [4u8; KEY_LEN];
    let blob = seal_value(&key, "pässwörd=✓").unwrap();
    assert_eq!(open_value(&key, &blob).unwrap(), "pässwörd=✓");
    assert!(matches!(open_value(&[5u8; KEY_LEN], &blob), Err(AppError::Crypto(_))));
    // A blob that decrypts to invalid UTF-8 is refused.
    let raw = encrypt(&key, &[0xff, 0xfe]).unwrap();
    assert!(matches!(open_value(&key, &raw), Err(AppError::Crypto(_))));
}

#[test]
fn passphrase_must_not_be_empty() {
    assert!(check_passphrase("x").is_ok());
    assert!(matches!(check_passphrase(""), Err(AppError::Invalid(_))));
    assert!(matches!(seal_bundle_text("{}", ""), Err(AppError::Invalid(_))));
}

#[test]
fn sealed_bundle_text_round_trip() {
    let json = "{\"format\":\"secret-manager-export\",\"projects\":[{\"name\":\"alpha\",\"secrets\":[{\"key\":\"A_KEY\",\"value\":\"a-val\"}]}]}";
    let file = seal_bundle_text(json, "trip-passphrase").unwrap();
    assert!(is_vault_file(&file));
    assert_eq!(file.format, VAULT_FORMAT);
    assert_eq!(file.version, 1);
    assert_eq!(file.kdf, Argon2Params::default());
    assert!(!file.data.contains("a-val"));
    assert_eq!(open_vault_file(&file, "trip-passphrase").unwrap(), json);
}

#[test]
fn sealed_bundle_wrong_passphrase_fails() {
    let file = seal_bundle_text("secret text", "right").unwrap();
    match open_vault_file(&file, "wrong") {
        Err(AppError::Invalid(m)) => assert_eq!(m, "wrong passphrase or corrupt vault file"),
        _ => panic!("expected Invalid"),
    }
}

fn vault_file(format: &str, version: u32) -> VaultFile {
    VaultFile {
        format: format.into(),
        version,
        kdf: Argon2Params { m_cost: 1024, t_cost: 1, p_cost: 1 },
        salt: "00".repeat(32),
        data: "00".repeat(40),
    }
}

#[test]
fn vault_file_header_checks() {
    assert!(!is_vault_file(&vault_file(EXPORT_FORMAT, 1)));
    match open_vault_file(&vault_file(EXPORT_FORMAT, 1), "p") {
        Err(AppError::Invalid(m)) => assert_eq!(m, "unrecognized file format"),
        _ => panic!("expected Invalid"),
    }
    match open_vault_file(&vault_file(VAULT_FORMAT, 12), "p") {
        Err(AppError::Invalid(m)) => assert_eq!(m, "vault file was made by a newer version (v12)"),
        _ => panic!("expected Invalid"),
    }
    let mut bad_hex = vault_file(VAULT_FORMAT, 1);
    bad_hex.salt = "xyz".into();
    assert!(matches!(open_vault_file(&bad_hex, "p"), Err(AppError::Crypto(_))));
}

fn bundle(format: &str, version: u32) -> ExportBundle {
    ExportBundle { format: format.into(), version, exported_at: 0, projects: vec![] }
}

#[test]
fn bundle_header_checks() {
    assert!(check_bundle(bundle(EXPORT_FORMAT, 1)).is_ok());
    assert!(check_bundle(bundle(EXPORT_FORMAT, 0)).is_ok());
    match check_bundle(bundle("hello", 1)) {
        Err(AppError::Invalid(m)) => assert_eq!(m, "unrecognized file format"),
        _ => panic!("expected Invalid"),
    }
    match check_bundle(bundle(EXPORT_FORMAT, 7)) {
        Err(AppError::Invalid(m)) => assert_eq!(m, "file was made by a newer version (v7)"),
        _ => panic!("expected Invalid"),
    }
}

#[test]
fn import_defaults() {
    assert_eq!(ImportMode::default(), ImportMode::Skip);
    let s = ImportSummary::default();
    assert_eq!(
        (s.projects_created, s.projects_merged, s.secrets_imported, s.secrets_overwritten, s.secrets_skipped),
        (0, 0, 0, 0, 0)
    );
}

fn fast() -> Argon2Params {
    Argon2Params { m_cost: 1024, t_cost: 1, p_cost: 1 }
}

fn empty_legacy() -> LegacyMeta {
    LegacyMeta {
        master_wrap: None,
        kdf_params: None,
        pw_salt: None,
        verify_blob: None,
        recovery: vec![],
        argon2_salt: None,
        argon2_params: None,
    }
}

#[test]
fn legacy_v2_keeps_master_key() {
    // A v2 vault's metadata is a v3 sidecar's fields stored as rows.
    let (key, sc, _codes) = vault::create_with_params("legacy-pw", fast()).unwrap();
    let meta = LegacyMeta {
        master_wrap: Some(sc.master_wrap.clone()),
        kdf_params: Some(Ok(fast())),
        pw_salt: Some(sc.pw_salt.clone()),
        verify_blob: Some(sc.verify.clone()),
        ..empty_legacy()
    };
    let (mk, new_sc) = read_legacy(meta, "legacy-pw").unwrap();
    assert_eq!(mk, key);
    assert_eq!(new_sc.version, 3);
    assert_eq!(vault::unlock(&new_sc, "legacy-pw").unwrap(), key);

    let wrong = LegacyMeta {
        master_wrap: Some(sc.master_wrap.clone()),
        kdf_params: Some(Ok(fast())),
        pw_salt: Some(sc.pw_salt.clone()),
        verify_blob: Some(sc.verify.clone()),
        ..empty_legacy()
    };
    assert!(matches!(read_legacy(wrong, "nope"), Err(AppError::WrongPassword)));
}

#[test]
fn legacy_v1_key_becomes_master_key() {
    let salt = [7u8; 32];
    let key = derive_key("v1-pw", &salt, &fast()).unwrap();
    let verify = make_verify_blob(&key).unwrap();
    let meta = || LegacyMeta {
        argon2_salt: Some(hex::encode(salt)),
        argon2_params: Some(Ok(fast())),
        verify_blob: Some(hex::encode(&verify)),
        ..empty_legacy()
    };
    let (mk, sc) = read_legacy(meta(), "v1-pw").unwrap();
    assert_eq!(mk, key);
    assert!(sc.recovery.is_empty());
    assert_eq!(vault::unlock(&sc, "v1-pw").unwrap(), key);
    assert!(matches!(read_legacy(meta(), "other"), Err(AppError::WrongPassword)));
}

#[test]
fn legacy_missing_rows() {
    assert!(matches!(read_legacy(empty_legacy(), "pw"), Err(AppError::VaultMissing)));
    let meta = LegacyMeta { master_wrap: Some("00".into()), kdf_params: Some(Err("bad json".into())), ..empty_legacy() };
    assert!(matches!(read_legacy(meta, "pw"), Err(AppError::Invalid(_))));
}
