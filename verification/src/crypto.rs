//! Key derivation (Argon2id) and authenticated encryption (AES-256-GCM).
//!
//! The vault key is 32 bytes, derived from the master password + salt, and is
//! never persisted: it lives in memory only while the vault is unlocked.

use vstd::prelude::*;
use vstd::string::{StringExecFns, StringSliceAdditionalSpecFns};

use crate::error::AppError;
use ring::rand::SecureRandom;
use zeroize::Zeroize;

verus! {

pub const SALT_LEN: usize = 32;

pub const KEY_LEN: usize = 32;

/// AES-256-GCM nonce length.
pub const NONCE_LEN: usize = 12;

/// AES-256-GCM tag length.
pub const TAG_LEN: usize = 16;

/// The longest input AES-256-GCM seals (NIST SP800-38D bound, in bytes).
pub const AEAD_MAX_INPUT_LEN: u64 = 68719476704;

#[verifier::external_type_specification]
#[verifier::external_body]
pub struct ExUnspecified(ring::error::Unspecified);

#[verifier::external_type_specification]
#[verifier::external_body]
pub struct ExArgon2Error(argon2::Error);

/// Argon2id cost parameters, kept with every wrapped key so a vault can be
/// unlocked later even if the defaults change.
#[derive(Debug, Clone, Copy, PartialEq, Eq, Structural)]
pub struct Argon2Params {
    pub m_cost: u32,
    pub t_cost: u32,
    pub p_cost: u32,
}

impl Default for Argon2Params {
    /// 64 MB of memory, 3 iterations, 4 lanes.
    fn default() -> (p: Self)
        ensures
            p == (Argon2Params { m_cost: 65536, t_cost: 3, p_cost: 4 }),
    {
        Argon2Params { m_cost: 65536, t_cost: 3, p_cost: 4 }
    }
}

// ---------------------------------------------------------------------------
// Names for what the outside primitives compute
// ---------------------------------------------------------------------------

/// The 32-byte Argon2id (version 0x13) hash of `password` under `salt` with
/// the given memory, time and lane costs.
pub uninterp spec fn argon2id_v13(password: Seq<u8>, salt: Seq<u8>, m_cost: u32, t_cost: u32, p_cost: u32) -> Seq<u8>;

/// AES-256-GCM sealing (empty associated data): ciphertext followed by the tag.
pub uninterp spec fn aes256gcm_seal(key: Seq<u8>, nonce: Seq<u8>, plaintext: Seq<u8>) -> Seq<u8>;

/// AES-256-GCM opening (empty associated data): the plaintext, or `None` when
/// authentication fails.
pub uninterp spec fn aes256gcm_open(key: Seq<u8>, nonce: Seq<u8>, sealed: Seq<u8>) -> Option<Seq<u8>>;

/// Argon2 accepts these cost parameters (`argon2::Params::new`).
pub open spec fn argon2_params_valid(m_cost: u32, t_cost: u32, p_cost: u32) -> bool {
    &&& m_cost >= 8
    &&& m_cost >= 8 * p_cost
    &&& t_cost >= 1
    &&& 1 <= p_cost <= 0xFF_FFFF
}

/// Argon2 accepts a password and salt of these lengths.
pub open spec fn argon2_inputs_valid(password: Seq<u8>, salt: Seq<u8>) -> bool {
    &&& password.len() <= 0xFFFF_FFFF
    &&& 8 <= salt.len() <= 0xFFFF_FFFF
}

/// Why an Argon2id derivation failed.
enum Argon2Failure {
    /// `Params::new` refused the costs.
    Params(argon2::Error),
    /// The hash refused the password or salt.
    Hash(argon2::Error),
}

/// `argon2::Params::new` followed by `Argon2::hash_password_into` (Argon2id,
/// version 0x13, 32-byte output). The memory it allocates grows with
/// `m_cost`; nothing here is promised when the machine cannot provide it.
/// Once `m_cost` is at least 8, `Params::new` computes `8 * p_cost` in `u32`,
/// so lane counts past `0x1FFF_FFFF` are left out.
#[verifier::external_body]
fn argon2id_derive(password: &[u8], salt: &[u8], m_cost: u32, t_cost: u32, p_cost: u32) -> (r: Result<[u8; KEY_LEN], Argon2Failure>)
    requires
        m_cost < 8 || p_cost <= 0x1FFF_FFFF,
    ensures
        (r matches Err(Argon2Failure::Params(_))) == !argon2_params_valid(m_cost, t_cost, p_cost),
        (r matches Err(Argon2Failure::Hash(_))) == (argon2_params_valid(m_cost, t_cost, p_cost) && !argon2_inputs_valid(password@, salt@)),
        (r matches Ok(k) && k@ == argon2id_v13(password@, salt@, m_cost, t_cost, p_cost)) == (argon2_params_valid(m_cost, t_cost, p_cost) && argon2_inputs_valid(password@, salt@)),
{
    let params = argon2::Params::new(m_cost, t_cost, p_cost, Some(KEY_LEN)).map_err(Argon2Failure::Params)?;
    let argon = argon2::Argon2::new(argon2::Algorithm::Argon2id, argon2::Version::V0x13, params);
    let mut key = [0u8; KEY_LEN];
    argon.hash_password_into(password, salt, &mut key).map_err(Argon2Failure::Hash)?;
    Ok(key)
}

/// The message of an `argon2::Error` (its `Display`).
#[verifier::external_body]
fn argon2_error_text(e: &argon2::Error) -> String {
    e.to_string()
}

/// `ring::rand::SystemRandom::fill`: overwrites `buf` with random bytes.
#[verifier::external_body]
fn system_random_fill(buf: &mut Vec<u8>) -> (r: Result<(), ring::error::Unspecified>)
    ensures
        final(buf)@.len() == old(buf)@.len(),
{
    ring::rand::SystemRandom::new().fill(buf.as_mut_slice())
}

/// `ring::aead::LessSafeKey::seal_in_place_append_tag` with AES-256-GCM and
/// empty associated data. The output opens again, under the same key and
/// nonce, to the plaintext.
#[verifier::external_body]
fn aes_gcm_seal(key: &[u8; KEY_LEN], nonce: &[u8; NONCE_LEN], plaintext: &[u8]) -> (r: Result<Vec<u8>, ring::error::Unspecified>)
    ensures
        r is Ok <==> plaintext@.len() <= AEAD_MAX_INPUT_LEN,
        r matches Ok(v) ==> {
            &&& v@ == aes256gcm_seal(key@, nonce@, plaintext@)
            &&& v@.len() == plaintext@.len() + TAG_LEN
            &&& aes256gcm_open(key@, nonce@, v@) == Some(plaintext@)
        },
{
    let unbound = ring::aead::UnboundKey::new(&ring::aead::AES_256_GCM, key)?;
    let sealing = ring::aead::LessSafeKey::new(unbound);
    let nonce = ring::aead::Nonce::assume_unique_for_key(*nonce);
    let mut in_out = plaintext.to_vec();
    sealing.seal_in_place_append_tag(nonce, ring::aead::Aad::empty(), &mut in_out)?;
    Ok(in_out)
}

/// `ring::aead::LessSafeKey::open_in_place` with AES-256-GCM and empty
/// associated data. Input shorter than a tag never opens.
#[verifier::external_body]
fn aes_gcm_open(key: &[u8; KEY_LEN], nonce: &[u8; NONCE_LEN], sealed: &[u8]) -> (r: Result<Vec<u8>, ring::error::Unspecified>)
    ensures
        r is Ok <==> aes256gcm_open(key@, nonce@, sealed@) is Some,
        r matches Ok(v) ==> aes256gcm_open(key@, nonce@, sealed@) == Some(v@),
        sealed@.len() < TAG_LEN ==> r is Err,
{
    let unbound = ring::aead::UnboundKey::new(&ring::aead::AES_256_GCM, key)?;
    let opening = ring::aead::LessSafeKey::new(unbound);
    let nonce = ring::aead::Nonce::assume_unique_for_key(*nonce);
    let mut in_out = sealed.to_vec();
    let plaintext = opening.open_in_place(nonce, ring::aead::Aad::empty(), &mut in_out)?;
    Ok(plaintext.to_vec())
}

/// `zeroize::Zeroize::zeroize` on a key: every byte becomes 0.
#[verifier::external_body]
fn zeroize_key(key: &mut [u8; KEY_LEN])
    ensures
        final(key)@ == Seq::new(KEY_LEN as nat, |i: int| 0u8),
{
    key.zeroize();
}

// ---------------------------------------------------------------------------
// Specifications of the vault's own encryption layout
// ---------------------------------------------------------------------------

/// The plaintext of the unlock verification blob: `secret-manager-verify-v1`.
pub open spec fn spec_verify_plaintext() -> Seq<u8> {
    seq![115u8, 101, 99, 114, 101, 116, 45, 109, 97, 110, 97, 103, 101, 114, 45, 118, 101, 114, 105, 102, 121, 45, 118, 49]
}

/// What [`decrypt`] yields for `data` under `key`: `nonce(12) || ciphertext || tag`
/// opened with AES-256-GCM, or `None`.
pub open spec fn spec_decrypt(key: Seq<u8>, data: Seq<u8>) -> Option<Seq<u8>> {
    if data.len() < NONCE_LEN + TAG_LEN {
        None
    } else {
        aes256gcm_open(key, data.take(NONCE_LEN as int), data.skip(NONCE_LEN as int))
    }
}

/// `data` is the sealing of `plaintext` under `key` with the nonce it starts with.
pub open spec fn sealed_with(key: Seq<u8>, plaintext: Seq<u8>, data: Seq<u8>) -> bool {
    &&& data.len() == NONCE_LEN + plaintext.len() + TAG_LEN
    &&& data.skip(NONCE_LEN as int) == aes256gcm_seal(key, data.take(NONCE_LEN as int), plaintext)
    &&& spec_decrypt(key, data) == Some(plaintext)
}

/// The key [`derive_key`] gives for these inputs, or `None` when Argon2
/// refuses them.
pub open spec fn spec_derive_key(password: Seq<u8>, salt: Seq<u8>, params: Argon2Params) -> Option<Seq<u8>> {
    if argon2_params_valid(params.m_cost, params.t_cost, params.p_cost) && argon2_inputs_valid(password, salt) {
        Some(argon2id_v13(password, salt, params.m_cost, params.t_cost, params.p_cost))
    } else {
        None
    }
}

/// `key` opens `blob` to the verification plaintext.
pub open spec fn spec_verifies(key: Seq<u8>, blob: Seq<u8>) -> bool {
    spec_decrypt(key, blob) == Some(spec_verify_plaintext())
}

// ---------------------------------------------------------------------------
// Operations
// ---------------------------------------------------------------------------

/// The verification plaintext as bytes.
pub fn verify_plaintext() -> (v: Vec<u8>)
    ensures
        v@ == spec_verify_plaintext(),
{
    let v: Vec<u8> = vec![115u8, 101, 99, 114, 101, 116, 45, 109, 97, 110, 97, 103, 101, 114, 45, 118, 101, 114, 105, 102, 121, 45, 118, 49];
    assert(v@ =~= spec_verify_plaintext());
    v
}

/// Generate `n` cryptographically secure random bytes.
pub fn random_bytes(n: usize) -> (r: Result<Vec<u8>, AppError>)
    ensures
        r matches Ok(v) ==> v@.len() == n,
        r matches Err(e) ==> e matches AppError::Crypto(_),
{
    let mut buf: Vec<u8> = vec![0u8; n];
    match system_random_fill(&mut buf) {
        Ok(()) => Ok(buf),
        Err(_) => Err(AppError::crypto("failed to generate random bytes")),
    }
}

/// Copy exactly `N` bytes into an array.
pub(crate) fn to_array<const N: usize>(v: &[u8]) -> (a: [u8; N])
    requires
        v@.len() == N,
    ensures
        a@ == v@,
{
    let mut a = [0u8; N];
    let mut i: usize = 0;
    while i < N
        invariant
            v@.len() == N,
            0 <= i <= N,
            a@.len() == N,
            forall|j: int| 0 <= j < i ==> a@[j] == v@[j],
        decreases N - i,
    {
        a[i] = v[i];
        i = i + 1;
    }
    assert(a@ =~= v@);
    a
}

/// Generate a fresh 32-byte salt.
pub fn generate_salt() -> (r: Result<[u8; SALT_LEN], AppError>)
    ensures
        r matches Err(e) ==> e matches AppError::Crypto(_),
{
    let bytes = random_bytes(SALT_LEN)?;
    Ok(to_array::<SALT_LEN>(bytes.as_slice()))
}

/// Prefix `prefix` to the message of an Argon2 error.
fn argon2_message(prefix: &str, e: &argon2::Error) -> (err: AppError)
    ensures
        err matches AppError::Crypto(_),
{
    let mut msg = String::from_str(prefix);
    let text = argon2_error_text(e);
    msg.append(text.as_str());
    AppError::Crypto(msg)
}

/// Derive the 32-byte vault key from the master password + salt with Argon2id.
pub fn derive_key(password: &str, salt: &[u8], params: &Argon2Params) -> (r: Result<[u8; KEY_LEN], AppError>)
    ensures
        r matches Ok(k) ==> spec_derive_key(password.spec_bytes(), salt@, *params) == Some(k@),
        r is Err <==> spec_derive_key(password.spec_bytes(), salt@, *params) is None,
        r matches Err(e) ==> e matches AppError::Crypto(_),
{
    if params.m_cost >= 8 && params.p_cost > 0x1FFF_FFFF {
        // `Params::new` would compute `8 * p_cost` here, past `u32`; whatever
        // it did, the lane count is over Argon2's limit.
        return Err(AppError::crypto("invalid argon2 params: too many threads"));
    }
    let pwd = password.as_bytes();
    match argon2id_derive(pwd, salt, params.m_cost, params.t_cost, params.p_cost) {
        Ok(key) => Ok(key),
        Err(Argon2Failure::Params(e)) => Err(argon2_message("invalid argon2 params: ", &e)),
        Err(Argon2Failure::Hash(e)) => Err(argon2_message("key derivation failed: ", &e)),
    }
}


/// Seal `plaintext` with AES-256-GCM under `key` and `nonce`, laid out as
/// `nonce(12) || ciphertext || tag`.
pub fn seal_with_nonce(key: &[u8; KEY_LEN], nonce: &[u8; NONCE_LEN], plaintext: &[u8]) -> (r: Result<Vec<u8>, AppError>)
    ensures
        r is Ok <==> plaintext@.len() <= AEAD_MAX_INPUT_LEN,
        r matches Ok(out) ==> out@ == nonce@ + aes256gcm_seal(key@, nonce@, plaintext@),
        r matches Ok(out) ==> sealed_with(key@, plaintext@, out@),
        r matches Err(e) ==> e matches AppError::Crypto(_),
{
    let sealed = match aes_gcm_seal(key, nonce, plaintext) {
        Ok(v) => v,
        Err(_) => return Err(AppError::crypto("encryption failed")),
    };
    let mut out: Vec<u8> = Vec::new();
    let mut i: usize = 0;
    while i < NONCE_LEN
        invariant
            0 <= i <= NONCE_LEN,
            out@ == nonce@.take(i as int),
        decreases NONCE_LEN - i,
    {
        out.push(nonce[i]);
        i = i + 1;
        assert(out@ =~= nonce@.take(i as int));
    }
    let mut j: usize = 0;
    while j < sealed.len()
        invariant
            0 <= j <= sealed@.len(),
            out@ == nonce@ + sealed@.take(j as int),
        decreases sealed@.len() - j,
    {
        out.push(sealed[j]);
        j = j + 1;
        assert(out@ =~= nonce@ + sealed@.take(j as int));
    }
    proof {
        assert(sealed@.take(sealed@.len() as int) =~= sealed@);
        assert(out@.take(NONCE_LEN as int) =~= nonce@);
        assert(out@.skip(NONCE_LEN as int) =~= sealed@);
    }
    Ok(out)
}

/// Encrypt `plaintext` with AES-256-GCM under a fresh random nonce.
/// Output layout: `nonce(12) || ciphertext || tag`.
pub fn encrypt(key: &[u8; KEY_LEN], plaintext: &[u8]) -> (r: Result<Vec<u8>, AppError>)
    ensures
        r matches Ok(out) ==> sealed_with(key@, plaintext@, out@),
        plaintext@.len() > AEAD_MAX_INPUT_LEN ==> r is Err,
        r matches Err(e) ==> e matches AppError::Crypto(_),
{
    let nonce_bytes = random_bytes(NONCE_LEN)?;
    let nonce = to_array::<NONCE_LEN>(nonce_bytes.as_slice());
    seal_with_nonce(key, &nonce, plaintext)
}

/// Decrypt data produced by [`encrypt`]. Input too short to hold a nonce and a
/// tag, a wrong key, or tampering gives `AppError::Crypto`.
pub fn decrypt(key: &[u8; KEY_LEN], data: &[u8]) -> (r: Result<Vec<u8>, AppError>)
    ensures
        r matches Ok(pt) ==> spec_decrypt(key@, data@) == Some(pt@),
        r is Err <==> spec_decrypt(key@, data@) is None,
        r matches Err(e) ==> e matches AppError::Crypto(_),
{
    if data.len() < NONCE_LEN + TAG_LEN {
        return Err(AppError::crypto("ciphertext too short"));
    }
    let (nonce_bytes, ct) = data.split_at(NONCE_LEN);
    let nonce = to_array::<NONCE_LEN>(nonce_bytes);
    proof {
        assert(nonce_bytes@ =~= data@.take(NONCE_LEN as int));
        assert(ct@ =~= data@.skip(NONCE_LEN as int));
    }
    match aes_gcm_open(key, &nonce, ct) {
        Ok(pt) => Ok(pt),
        Err(_) => Err(AppError::crypto("decryption failed (wrong key or corrupt data)")),
    }
}

/// Build the unlock verification blob: `AES-256-GCM(key, VERIFY_PLAINTEXT)`.
pub fn make_verify_blob(key: &[u8; KEY_LEN]) -> (r: Result<Vec<u8>, AppError>)
    ensures
        r matches Ok(blob) ==> sealed_with(key@, spec_verify_plaintext(), blob@) && spec_verifies(key@, blob@),
        r matches Ok(blob) ==> blob@.len() == NONCE_LEN + 24 + TAG_LEN,
        r matches Err(e) ==> e matches AppError::Crypto(_),
{
    let pt = verify_plaintext();
    encrypt(key, pt.as_slice())
}

/// Byte-wise equality of two byte strings.
pub fn bytes_equal(a: &[u8], b: &[u8]) -> (eq: bool)
    ensures
        eq == (a@ == b@),
{
    if a.len() != b.len() {
        return false;
    }
    let mut i: usize = 0;
    while i < a.len()
        invariant
            a@.len() == b@.len(),
            0 <= i <= a@.len(),
            forall|j: int| 0 <= j < i ==> a@[j] == b@[j],
        decreases a@.len() - i,
    {
        if a[i] != b[i] {
            return false;
        }
        i = i + 1;
    }
    assert(a@ =~= b@);
    true
}

/// Return `true` exactly when `key` decrypts `blob` to the verification plaintext.
pub fn verify_key(key: &[u8; KEY_LEN], blob: &[u8]) -> (ok: bool)
    ensures
        ok == spec_verifies(key@, blob@),
{
    match decrypt(key, blob) {
        Ok(pt) => {
            let expected = verify_plaintext();
            bytes_equal(pt.as_slice(), expected.as_slice())
        },
        Err(_) => false,
    }
}

/// Zeroize a 32-byte key in place.
pub fn wipe(key: &mut [u8; KEY_LEN])
    ensures
        forall|i: int| 0 <= i < KEY_LEN ==> final(key)@[i] == 0u8,
{
    zeroize_key(key);
}

// ---------------------------------------------------------------------------
// Laws
// ---------------------------------------------------------------------------

/// Whatever [`encrypt`] produced under `key` decrypts, under the same key, to
/// the original plaintext.
pub proof fn lemma_decrypt_inverts_encrypt(key: Seq<u8>, plaintext: Seq<u8>, data: Seq<u8>)
    requires
        sealed_with(key, plaintext, data),
    ensures
        spec_decrypt(key, data) == Some(plaintext),
        data.len() == NONCE_LEN + plaintext.len() + TAG_LEN,
{
}

} // verus!
