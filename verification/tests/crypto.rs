use secret_manager_lib::crypto::{decrypt, derive_key, encrypt, make_verify_blob, verify_key, Argon2Params, KEY_LEN, NONCE_LEN};

fn test_key() -> [u8; KEY_LEN] {
    derive_key("correct horse battery staple", b"0123456789abcdef0123456789abcdef", &Argon2Params { m_cost: 1024, t_cost: 1, p_cost: 1 }).unwrap()
}

#[test]
fn encrypt_decrypt_round_trip() {
    let key = test_key();
    let msg = b"super secret value=hunter2";
    let ct = encrypt(&key, msg).unwrap();
    assert_ne!(&ct[NONCE_LEN..], msg, "ciphertext must differ from plaintext");
    let pt = decrypt(&key, &ct).unwrap();
    assert_eq!(pt, msg);
}

#[test]
fn nonce_is_unique_per_encryption() {
    let key = test_key();
    let a = encrypt(&key, b"x").unwrap();
    let b = encrypt(&key, b"x").unwrap();
    assert_ne!(a, b, "two encryptions of same plaintext must differ (random nonce)");
}

#[test]
fn wrong_key_fails_to_decrypt() {
    let key = test_key();
    let mut other = key;
    other[0] ^= 0xff;
    let ct = encrypt(&key, b"secret").unwrap();
    assert!(decrypt(&other, &ct).is_err());
}

#[test]
fn tampered_ciphertext_fails() {
    let key = test_key();
    let mut ct = encrypt(&key, b"secret").unwrap();
    let last = ct.len() - 1;
    ct[last] ^= 0x01;
    assert!(decrypt(&key, &ct).is_err());
}

#[test]
fn verify_blob_round_trip() {
    let key = test_key();
    let blob = make_verify_blob(&key).unwrap();
    assert!(verify_key(&key, &blob));

    let mut wrong = key;
    wrong[5] ^= 0xff;
    assert!(!verify_key(&wrong, &blob));
}

#[test]
fn derive_key_is_deterministic() {
    let salt = b"0123456789abcdef0123456789abcdef";
    let p = Argon2Params { m_cost: 1024, t_cost: 1, p_cost: 1 };
    let a = derive_key("pw", salt, &p).unwrap();
    let b = derive_key("pw", salt, &p).unwrap();
    assert_eq!(a, b);

    let c = derive_key("pw2", salt, &p).unwrap();
    assert_ne!(a, c);
}

#[test]
fn decrypt_rejects_short_input() {
    let key = test_key();
    assert!(decrypt(&key, b"tiny").is_err());
}
