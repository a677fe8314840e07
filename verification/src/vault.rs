//! Vault lifecycle: create, unlock, change master password, recovery codes,
//! unlock rate limiting and the biometric wrap.
//!
//! A random 32-byte master key encrypts every secret value. It is never stored
//! in the clear: it is wrapped by a key derived from the master password
//! (`master_wrap`) and by a key derived from each recovery code. Changing the
//! password or recovering only re-wraps the master key.

use vstd::prelude::*;
use vstd::string::{StrSliceExecFns, StringExecFns};
use vstd::utf8::encode_utf8;

use crate::crypto::{
    decrypt, derive_key, encrypt, generate_salt, make_verify_blob, random_bytes, spec_decrypt, spec_derive_key,
    spec_verifies, to_array, verify_key, Argon2Params, KEY_LEN, SALT_LEN,
};
use crate::encoding::{hex_decode, hex_encode, hex_encode_upper, is_hex_text, spec_hex_decode, spec_hex_lower, spec_hex_upper};
use crate::error::AppError;
use crate::sidecar::{RecoveryEntry, Sidecar};
use crate::text::push_char;

verus! {

/// Number of recovery codes generated per set.
pub const RECOVERY_CODE_COUNT: usize = 8;

/// Random bytes behind one recovery code.
pub const RECOVERY_CODE_BYTES: usize = 15;

/// Render a 32-byte master key as 64 lower-case hex chars for `PRAGMA key`.
pub fn key_hex(master_key: &[u8; KEY_LEN]) -> (s: String)
    ensures
        s@ == spec_hex_lower(master_key@),
{
    hex_encode(master_key.as_slice())
}

// ---------------------------------------------------------------------------
// Recovery code text
// ---------------------------------------------------------------------------

pub open spec fn is_ascii_alnum(c: char) -> bool {
    ('0' <= c && c <= '9') || ('a' <= c && c <= 'z') || ('A' <= c && c <= 'Z')
}

pub open spec fn ascii_upper(c: char) -> char {
    if 'a' <= c && c <= 'z' {
        ((c as int) - 32) as char
    } else {
        c
    }
}

/// A user-entered code reduced to its ASCII letters and digits, upper-cased.
pub open spec fn spec_normalize(s: Seq<char>) -> Seq<char>
    decreases s.len(),
{
    if s.len() == 0 {
        seq![]
    } else {
        let rest = spec_normalize(s.drop_last());
        if is_ascii_alnum(s.last()) {
            rest.push(ascii_upper(s.last()))
        } else {
            rest
        }
    }
}

/// The first `g` dash-separated five-character groups of `h`.
pub open spec fn spec_groups(h: Seq<char>, g: nat) -> Seq<char>
    decreases g,
{
    if g == 0 {
        seq![]
    } else if g == 1 {
        h.subrange(0, 5)
    } else {
        spec_groups(h, (g - 1) as nat) + seq!['-'] + h.subrange(5 * (g - 1) as int, 5 * g as int)
    }
}

/// The recovery code shown for random bytes `b`: their upper-case hex in six
/// dash-separated groups of five.
pub open spec fn spec_recovery_code(b: Seq<u8>) -> Seq<char> {
    spec_groups(spec_hex_upper(b), 6)
}

/// `c` is a code that [`generate_recovery_code`] can produce.
pub open spec fn is_recovery_code(c: Seq<char>) -> bool {
    exists|b: Seq<u8>| b.len() == RECOVERY_CODE_BYTES && c == #[trigger] spec_recovery_code(b)
}

/// Normalize a user-entered code (drop dashes and spaces, upper-case) before use.
fn normalize_code(code: &str) -> (n: String)
    ensures
        n@ == spec_normalize(code@),
{
    let len = code.unicode_len();
    let mut out = String::new();
    let mut i: usize = 0;
    while i < len
        invariant
            len == code@.len(),
            0 <= i <= len,
            out@ == spec_normalize(code@.take(i as int)),
        decreases len - i,
    {
        let c = code.get_char(i);
        proof {
            assert(code@.take(i + 1).drop_last() =~= code@.take(i as int));
        }
        if ('0' <= c && c <= '9') || ('A' <= c && c <= 'Z') {
            push_char(&mut out, c);
        } else if 'a' <= c && c <= 'z' {
            let upper = ((c as u8) - 32) as char;
            assert(upper == ascii_upper(c));
            push_char(&mut out, upper);
        }
        i = i + 1;
    }
    assert(code@.take(len as int) =~= code@);
    out
}

/// Generate one recovery code: 120 random bits as upper-case hex in
/// dash-separated groups of five, e.g. `A1B2C-3D4E5-...`.
fn generate_recovery_code() -> (r: Result<String, AppError>)
    ensures
        r matches Ok(c) ==> is_recovery_code(c@),
        r matches Err(e) ==> e matches AppError::Crypto(_),
{
    let bytes = random_bytes(RECOVERY_CODE_BYTES)?;
    let hex = hex_encode_upper(bytes.as_slice());
    let h = hex.as_str();
    let mut out = String::new();
    let mut g: usize = 0;
    while g < 6
        invariant
            h@ == spec_hex_upper(bytes@),
            h@.len() == 30,
            0 <= g <= 6,
            out@ == spec_groups(h@, g as nat),
        decreases 6 - g,
    {
        if g > 0 {
            out.append("-");
        }
        let chunk = h.substring_char(5 * g, 5 * g + 5);
        out.append(chunk);
        proof {
            reveal_strlit("-");
            if g == 0 {
                assert(out@ =~= spec_groups(h@, 1));
            } else {
                assert(out@ =~= spec_groups(h@, (g + 1) as nat));
            }
        }
        g = g + 1;
    }
    assert(g == 6);
    assert(out@ == spec_groups(h@, 6));
    assert(out@ == spec_recovery_code(bytes@));
    assert(is_recovery_code(out@));
    Ok(out)
}


// ---------------------------------------------------------------------------
// Specification of the envelope
// ---------------------------------------------------------------------------

/// The three hex fields that unlocking reads are well-formed.
pub open spec fn sidecar_hex_ok(sc: Sidecar) -> bool {
    &&& is_hex_text(sc.pw_salt@)
    &&& is_hex_text(sc.master_wrap@)
    &&& is_hex_text(sc.verify@)
}

/// The key that `password` derives for this sidecar, if Argon2 accepts it.
pub open spec fn spec_password_key(sc: Sidecar, password: Seq<char>) -> Option<Seq<u8>> {
    spec_derive_key(encode_utf8(password), spec_hex_decode(sc.pw_salt@), sc.kdf)
}

/// The master key that `wrap_key` unwraps from `wrap`, provided it is 32 bytes
/// long and opens the verification blob `verify`.
pub open spec fn spec_unwrap_master(wrap_key: Seq<u8>, wrap: Seq<u8>, verify: Seq<u8>) -> Option<Seq<u8>> {
    match spec_decrypt(wrap_key, wrap) {
        Some(m) => if m.len() == KEY_LEN && spec_verifies(m, verify) {
            Some(m)
        } else {
            None
        },
        None => None,
    }
}

/// The master key that unlocking `sc` with `password` yields, or `None`.
pub open spec fn spec_unlock(sc: Sidecar, password: Seq<char>) -> Option<Seq<u8>> {
    if !sidecar_hex_ok(sc) {
        None
    } else {
        match spec_password_key(sc, password) {
            Some(pw_key) => spec_unwrap_master(pw_key, spec_hex_decode(sc.master_wrap@), spec_hex_decode(sc.verify@)),
            None => None,
        }
    }
}

/// The key that a recovery entry wraps, opened with the (normalized) code `code`.
pub open spec fn spec_entry_key(e: RecoveryEntry, code: Seq<char>, kdf: Argon2Params) -> Option<Seq<u8>> {
    if is_hex_text(e.salt@) && is_hex_text(e.wrap@) {
        match spec_derive_key(encode_utf8(code), spec_hex_decode(e.salt@), kdf) {
            Some(code_key) => spec_decrypt(code_key, spec_hex_decode(e.wrap@)),
            None => None,
        }
    } else {
        None
    }
}

/// `entries` wrap `master` under the normalized `codes`, one to one.
pub open spec fn recovery_wraps(codes: Seq<String>, entries: Seq<RecoveryEntry>, kdf: Argon2Params, master: Seq<u8>) -> bool {
    &&& codes.len() == RECOVERY_CODE_COUNT
    &&& entries.len() == RECOVERY_CODE_COUNT
    &&& forall|i: int| 0 <= i < RECOVERY_CODE_COUNT ==> is_recovery_code(#[trigger] codes[i]@)
    &&& forall|i: int| 0 <= i < RECOVERY_CODE_COUNT ==> spec_entry_key(#[trigger] entries[i], spec_normalize(codes[i]@), kdf) == Some(master)
    &&& forall|i: int| 0 <= i < RECOVERY_CODE_COUNT ==> spec_hex_decode((#[trigger] entries[i]).salt@).len() == SALT_LEN
}

/// `b` equals `a` except for the password salt and wrap.
pub open spec fn same_but_password(a: Sidecar, b: Sidecar) -> bool {
    &&& b.format == a.format
    &&& b.version == a.version
    &&& b.kdf == a.kdf
    &&& b.verify == a.verify
    &&& b.recovery == a.recovery
    &&& b.biometric_wrap == a.biometric_wrap
}

/// `b` equals `a` except for the password salt and wrap and the recovery
/// entries.
pub open spec fn same_but_password_and_recovery(a: Sidecar, b: Sidecar) -> bool {
    &&& b.format == a.format
    &&& b.version == a.version
    &&& b.kdf == a.kdf
    &&& b.verify == a.verify
    &&& b.biometric_wrap == a.biometric_wrap
}

/// What scanning the recovery entries from position `i` on finds for the
/// normalized `code`: entries whose salt or wrap is not hex are passed over,
/// an entry whose salt Argon2 refuses stops the scan, and the first entry that
/// unwraps a master key passing the `verify` check is the one that opens.
pub enum RecoveryScan {
    /// No entry opens.
    NoMatch,
    /// Deriving an entry's key failed before any entry opened.
    DeriveFails,
    /// Entry `index` opens to `key`.
    Opens { index: int, key: Seq<u8> },
}

pub open spec fn recovery_scan_from(entries: Seq<RecoveryEntry>, code: Seq<char>, kdf: Argon2Params, verify: Seq<u8>, i: int) -> RecoveryScan
    decreases entries.len() - i,
{
    if i < 0 || i >= entries.len() {
        RecoveryScan::NoMatch
    } else if !(is_hex_text(entries[i].salt@) && is_hex_text(entries[i].wrap@)) {
        recovery_scan_from(entries, code, kdf, verify, i + 1)
    } else {
        match spec_derive_key(encode_utf8(code), spec_hex_decode(entries[i].salt@), kdf) {
            None => RecoveryScan::DeriveFails,
            Some(code_key) => match spec_unwrap_master(code_key, spec_hex_decode(entries[i].wrap@), verify) {
                Some(m) => RecoveryScan::Opens { index: i, key: m },
                None => recovery_scan_from(entries, code, kdf, verify, i + 1),
            },
        }
    }
}

/// What [`recover`] finds among the sidecar's recovery entries for `code`.
pub open spec fn spec_recovery_scan(sc: Sidecar, code: Seq<char>) -> RecoveryScan {
    recovery_scan_from(sc.recovery@, spec_normalize(code), sc.kdf, spec_hex_decode(sc.verify@), 0)
}

// ---------------------------------------------------------------------------
// Create / unlock
// ---------------------------------------------------------------------------

/// Wrap `master_key` under a key derived from `secret` with a fresh salt:
/// returns the hex salt and the hex wrap.
fn wrap_under_secret(secret: &str, master_key: &[u8; KEY_LEN], params: &Argon2Params) -> (r: Result<(String, String), AppError>)
    ensures
        r matches Ok((salt, wrap)) ==> {
            &&& is_hex_text(salt@)
            &&& spec_hex_decode(salt@).len() == SALT_LEN
            &&& is_hex_text(wrap@)
            &&& spec_derive_key(encode_utf8(secret@), spec_hex_decode(salt@), *params) matches Some(k)
            &&& spec_decrypt(k, spec_hex_decode(wrap@)) == Some(master_key@)
        },
        r matches Err(e) ==> e matches AppError::Crypto(_),
{
    let salt = generate_salt()?;
    let key = derive_key(secret, salt.as_slice(), params)?;
    let wrap = encrypt(&key, master_key.as_slice())?;
    let salt_hex = hex_encode(salt.as_slice());
    let wrap_hex = hex_encode(wrap.as_slice());
    proof {
        crate::encoding::lemma_hex_round_trip(salt@);
        crate::encoding::lemma_hex_round_trip(wrap@);
    }
    Ok((salt_hex, wrap_hex))
}

/// Build the stored recovery wraps for a fresh set of codes. Returns the
/// plaintext codes (to show the user once) and the wrap entries.
fn build_recovery(master_key: &[u8; KEY_LEN], params: &Argon2Params) -> (r: Result<(Vec<String>, Vec<RecoveryEntry>), AppError>)
    ensures
        r matches Ok((codes, entries)) ==> recovery_wraps(codes@, entries@, *params, master_key@),
        r matches Err(e) ==> e matches AppError::Crypto(_),
{
    let mut codes: Vec<String> = Vec::new();
    let mut entries: Vec<RecoveryEntry> = Vec::new();
    let mut i: usize = 0;
    while i < RECOVERY_CODE_COUNT
        invariant
            0 <= i <= RECOVERY_CODE_COUNT,
            codes@.len() == i,
            entries@.len() == i,
            forall|j: int| 0 <= j < i ==> is_recovery_code(#[trigger] codes@[j]@),
            forall|j: int| 0 <= j < i ==> spec_entry_key(#[trigger] entries@[j], spec_normalize(codes@[j]@), *params) == Some(master_key@),
            forall|j: int| 0 <= j < i ==> spec_hex_decode((#[trigger] entries@[j]).salt@).len() == SALT_LEN,
        decreases RECOVERY_CODE_COUNT - i,
    {
        let code = generate_recovery_code()?;
        let normalized = normalize_code(code.as_str());
        let (salt, wrap) = wrap_under_secret(normalized.as_str(), master_key, params)?;
        entries.push(RecoveryEntry { salt, wrap });
        codes.push(code);
        i = i + 1;
    }
    Ok((codes, entries))
}

/// Build a fresh vault with caller-supplied Argon2 parameters: random master
/// key, sidecar (password wrap + recovery wraps + verify blob) and the one-time
/// recovery codes. Does not touch disk.
pub fn create_with_params(password: &str, params: Argon2Params) -> (r: Result<([u8; KEY_LEN], Sidecar, Vec<String>), AppError>)
    ensures
        password@.len() == 0 <==> r matches Err(AppError::Invalid(_)),
        r matches Err(e) ==> (e matches AppError::Invalid(_) || e matches AppError::Crypto(_)),
        r matches Ok((key, sc, codes)) ==> {
            &&& sc.format@ == "secret-manager-meta"@
            &&& sc.version == 3
            &&& sc.kdf == params
            &&& sc.failed_attempts == 0
            &&& sc.locked_until_ms == 0
            &&& sc.biometric_wrap is None
            &&& spec_unlock(sc, password@) == Some(key@)
            &&& spec_hex_decode(sc.pw_salt@).len() == SALT_LEN
            &&& spec_verifies(key@, spec_hex_decode(sc.verify@))
            &&& recovery_wraps(codes@, sc.recovery@, params, key@)
        },
{
    if password.is_empty() {
        return Err(AppError::invalid("master password must not be empty"));
    }
    let bytes = random_bytes(KEY_LEN)?;
    let master_key = to_array::<KEY_LEN>(bytes.as_slice());
    let (pw_salt, master_wrap) = wrap_under_secret(password, &master_key, &params)?;
    let verify = make_verify_blob(&master_key)?;
    let (codes, entries) = build_recovery(&master_key, &params)?;
    let verify_hex = hex_encode(verify.as_slice());
    proof {
        crate::encoding::lemma_hex_round_trip(verify@);
    }
    let sc = Sidecar {
        format: String::from_str("secret-manager-meta"),
        version: 3,
        kdf: params,
        pw_salt,
        master_wrap,
        verify: verify_hex,
        recovery: entries,
        failed_attempts: 0,
        locked_until_ms: 0,
        biometric_wrap: None,
    };
    Ok((master_key, sc, codes))
}

/// [`create_with_params`] with the production default Argon2 parameters.
pub fn create(password: &str) -> (r: Result<([u8; KEY_LEN], Sidecar, Vec<String>), AppError>)
    ensures
        password@.len() == 0 <==> r matches Err(AppError::Invalid(_)),
        r matches Err(e) ==> (e matches AppError::Invalid(_) || e matches AppError::Crypto(_)),
        r matches Ok((key, sc, codes)) ==> {
            &&& sc.format@ == "secret-manager-meta"@
            &&& sc.version == 3
            &&& sc.kdf == (Argon2Params { m_cost: 65536, t_cost: 3, p_cost: 4 })
            &&& sc.failed_attempts == 0
            &&& sc.locked_until_ms == 0
            &&& sc.biometric_wrap is None
            &&& spec_unlock(sc, password@) == Some(key@)
            &&& spec_hex_decode(sc.pw_salt@).len() == SALT_LEN
            &&& spec_verifies(key@, spec_hex_decode(sc.verify@))
            &&& recovery_wraps(codes@, sc.recovery@, sc.kdf, key@)
        },
{
    create_with_params(password, Argon2Params::default())
}

/// Decode a hex field, mapping failure to a `Crypto` error with `what`.
fn decode_field(text: &String, what: &str) -> (r: Result<Vec<u8>, AppError>)
    ensures
        r is Ok <==> is_hex_text(text@),
        r matches Ok(v) ==> v@ == spec_hex_decode(text@),
        r matches Err(e) ==> e matches AppError::Crypto(_),
{
    match hex_decode(text.as_str()) {
        Ok(v) => Ok(v),
        Err(_) => Err(AppError::crypto(what)),
    }
}

/// Unwrap a master key: decrypt `wrap` under `wrap_key` and check it is 32 bytes
/// that open the verification blob.
fn unwrap_master(wrap_key: &[u8; KEY_LEN], wrap: &[u8], verify: &[u8]) -> (r: Option<[u8; KEY_LEN]>)
    ensures
        r matches Some(k) ==> spec_unwrap_master(wrap_key@, wrap@, verify@) == Some(k@),
        r is None <==> spec_unwrap_master(wrap_key@, wrap@, verify@) is None,
{
    match decrypt(wrap_key, wrap) {
        Ok(k) => {
            if k.len() == KEY_LEN {
                let master = to_array::<KEY_LEN>(k.as_slice());
                if verify_key(&master, verify) {
                    Some(master)
                } else {
                    None
                }
            } else {
                None
            }
        },
        Err(_) => None,
    }
}

/// Unlock using the master password against the sidecar.
pub fn unlock(sc: &Sidecar, password: &str) -> (r: Result<[u8; KEY_LEN], AppError>)
    ensures
        r matches Ok(k) ==> spec_unlock(*sc, password@) == Some(k@),
        r is Ok <==> spec_unlock(*sc, password@) is Some,
        r matches Err(AppError::Crypto(_)) <==> !sidecar_hex_ok(*sc) || spec_password_key(*sc, password@) is None,
        r matches Err(AppError::WrongPassword) <==> sidecar_hex_ok(*sc) && spec_password_key(*sc, password@) is Some
            && spec_unlock(*sc, password@) is None,
{
    let pw_salt = decode_field(&sc.pw_salt, "corrupt salt")?;
    let master_wrap = decode_field(&sc.master_wrap, "corrupt master wrap")?;
    let verify = decode_field(&sc.verify, "corrupt verify blob")?;
    let pw_key = derive_key(password, pw_salt.as_slice(), &sc.kdf)?;
    match unwrap_master(&pw_key, master_wrap.as_slice(), verify.as_slice()) {
        Some(master_key) => Ok(master_key),
        None => Err(AppError::WrongPassword),
    }
}

/// `true` if the sidecar has at least one recovery wrap.
pub fn has_recovery(sc: &Sidecar) -> (b: bool)
    ensures
        b == (sc.recovery@.len() > 0),
{
    !sc.recovery.is_empty()
}


// ---------------------------------------------------------------------------
// Unlock rate limiting (backoff persisted in the sidecar)
// ---------------------------------------------------------------------------

/// The backoff schedule: none for up to 3 failures, then 5 s, 15 s, 30 s,
/// 60 s, and 5 min from the 8th failure on.
pub open spec fn spec_backoff_delay_ms(failed_attempts: u32) -> i64 {
    if failed_attempts <= 3 {
        0
    } else if failed_attempts == 4 {
        5_000
    } else if failed_attempts == 5 {
        15_000
    } else if failed_attempts == 6 {
        30_000
    } else if failed_attempts == 7 {
        60_000
    } else {
        300_000
    }
}

/// Backoff delay (ms) imposed after `failed_attempts` consecutive failures.
pub fn backoff_delay_ms(failed_attempts: u32) -> (d: i64)
    ensures
        d == spec_backoff_delay_ms(failed_attempts),
{
    match failed_attempts {
        0..=3 => 0,
        4 => 5_000,
        5 => 15_000,
        6 => 30_000,
        7 => 60_000,
        _ => 300_000,
    }
}

/// The backoff never shrinks as failures accumulate and never exceeds five
/// minutes: no failure count locks the vault for good.
pub proof fn lemma_backoff_monotone_and_bounded(a: u32, b: u32)
    requires
        a <= b,
    ensures
        spec_backoff_delay_ms(a) <= spec_backoff_delay_ms(b),
        0 <= spec_backoff_delay_ms(b) <= 300_000,
{
}

/// Seconds left in a lock window of `remaining_ms` milliseconds, rounded up
/// and at least one.
pub open spec fn spec_retry_after_secs(remaining_ms: int) -> int {
    let secs = (remaining_ms + 999) / 1000;
    if secs < 1 {
        1
    } else {
        secs
    }
}

/// Reject if the vault is currently in a backoff window.
pub fn check_rate_limit(sc: &Sidecar, now_ms: i64) -> (r: Result<(), AppError>)
    ensures
        now_ms >= sc.locked_until_ms <==> r is Ok,
        now_ms < sc.locked_until_ms ==> (r matches Err(AppError::RateLimited { retry_after_secs })
            && retry_after_secs == spec_retry_after_secs(sc.locked_until_ms - now_ms)),
{
    if now_ms < sc.locked_until_ms {
        let remaining: i128 = sc.locked_until_ms as i128 - now_ms as i128;
        let secs: i128 = (remaining + 999) / 1000;
        let secs: u64 = if secs < 1 {
            1
        } else {
            secs as u64
        };
        return Err(AppError::RateLimited { retry_after_secs: secs });
    }
    Ok(())
}

/// `b` equals `a` except for the rate-limit counters.
pub open spec fn same_but_counters(a: Sidecar, b: Sidecar) -> bool {
    &&& b.format == a.format
    &&& b.version == a.version
    &&& b.kdf == a.kdf
    &&& b.pw_salt == a.pw_salt
    &&& b.master_wrap == a.master_wrap
    &&& b.verify == a.verify
    &&& b.recovery == a.recovery
    &&& b.biometric_wrap == a.biometric_wrap
}

/// Record a failed unlock: bump the counter and set the next allowed time.
pub fn record_failure(sc: &mut Sidecar, now_ms: i64)
    requires
        now_ms <= i64::MAX - 300_000,
    ensures
        same_but_counters(*old(sc), *final(sc)),
        final(sc).failed_attempts == if old(sc).failed_attempts == u32::MAX {
            u32::MAX
        } else {
            (old(sc).failed_attempts + 1) as u32
        },
        final(sc).locked_until_ms == now_ms + spec_backoff_delay_ms(final(sc).failed_attempts),
{
    sc.failed_attempts = sc.failed_attempts.saturating_add(1);
    let delay = backoff_delay_ms(sc.failed_attempts);
    sc.locked_until_ms = now_ms + delay;
}

/// Record a successful unlock: clear the counter and lock window.
pub fn record_success(sc: &mut Sidecar)
    ensures
        same_but_counters(*old(sc), *final(sc)),
        final(sc).failed_attempts == 0,
        final(sc).locked_until_ms == 0,
{
    sc.failed_attempts = 0;
    sc.locked_until_ms = 0;
}

/// One password unlock attempt against the sidecar, as the unlock command
/// runs it: a blocked attempt is refused before any key derivation and leaves
/// the sidecar as it was; otherwise the attempt is unlocked and recorded as a
/// success or a failure.
pub fn attempt_unlock(sc: &mut Sidecar, password: &str, now_ms: i64) -> (r: Result<[u8; KEY_LEN], AppError>)
    requires
        now_ms <= i64::MAX - 300_000,
    ensures
        now_ms < old(sc).locked_until_ms ==> (r matches Err(AppError::RateLimited { .. }) && *final(sc) == *old(sc)),
        now_ms >= old(sc).locked_until_ms ==> {
            &&& same_but_counters(*old(sc), *final(sc))
            &&& (r matches Ok(k) ==> spec_unlock(*old(sc), password@) == Some(k@))
            &&& (r is Ok <==> spec_unlock(*old(sc), password@) is Some)
            &&& (r is Ok ==> final(sc).failed_attempts == 0 && final(sc).locked_until_ms == 0)
            &&& (r is Err ==> final(sc).locked_until_ms == now_ms + spec_backoff_delay_ms(final(sc).failed_attempts))
            &&& (r is Err && old(sc).failed_attempts < u32::MAX ==> final(sc).failed_attempts == old(sc).failed_attempts + 1)
        },
{
    check_rate_limit(sc, now_ms)?;
    match unlock(sc, password) {
        Ok(key) => {
            record_success(sc);
            Ok(key)
        },
        Err(e) => {
            record_failure(sc, now_ms);
            Err(e)
        },
    }
}

// ---------------------------------------------------------------------------
// Change password / recover
// ---------------------------------------------------------------------------

/// Change the master password: re-wrap the (unchanged) master key. The
/// sidecar changes only when the call succeeds.
pub fn change_password(sc: &mut Sidecar, old_password: &str, new_password: &str) -> (r: Result<[u8; KEY_LEN], AppError>)
    ensures
        new_password@.len() == 0 <==> r matches Err(AppError::Invalid(_)),
        new_password@.len() > 0 ==> (r matches Err(AppError::WrongPassword) <==> sidecar_hex_ok(*old(sc))
            && spec_password_key(*old(sc), old_password@) is Some && spec_unlock(*old(sc), old_password@) is None),
        new_password@.len() > 0 && (!sidecar_hex_ok(*old(sc)) || spec_password_key(*old(sc), old_password@) is None)
            ==> r matches Err(AppError::Crypto(_)),
        new_password@.len() > 0 && spec_unlock(*old(sc), old_password@) is Some
            ==> (r is Ok || r matches Err(AppError::Crypto(_))),
        r is Err ==> *final(sc) == *old(sc),
        r matches Ok(k) ==> {
            &&& spec_unlock(*old(sc), old_password@) == Some(k@)
            &&& spec_unlock(*final(sc), new_password@) == Some(k@)
            &&& same_but_password(*old(sc), *final(sc))
            &&& final(sc).failed_attempts == old(sc).failed_attempts
            &&& final(sc).locked_until_ms == old(sc).locked_until_ms
        },
{
    if new_password.is_empty() {
        return Err(AppError::invalid("new password must not be empty"));
    }
    let master_key = unlock(sc, old_password)?;
    let (pw_salt, master_wrap) = wrap_under_secret(new_password, &master_key, &sc.kdf)?;
    sc.pw_salt = pw_salt;
    sc.master_wrap = master_wrap;
    Ok(master_key)
}

/// Recover with a recovery code and set a new password. Re-wraps the master
/// key and removes the entry the code opened: each code works one time. The
/// sidecar changes only when the call succeeds.
pub fn recover(sc: &mut Sidecar, code: &str, new_password: &str) -> (r: Result<[u8; KEY_LEN], AppError>)
    ensures
        new_password@.len() == 0 <==> r matches Err(AppError::Invalid(_)),
        new_password@.len() > 0 && old(sc).recovery@.len() == 0 <==> r matches Err(AppError::NoRecovery),
        new_password@.len() > 0 && old(sc).recovery@.len() > 0 && !is_hex_text(old(sc).verify@)
            ==> r matches Err(AppError::Crypto(_)),
        r matches Err(AppError::WrongRecoveryCode) <==> {
            &&& new_password@.len() > 0
            &&& old(sc).recovery@.len() > 0
            &&& is_hex_text(old(sc).verify@)
            &&& spec_recovery_scan(*old(sc), code@) is NoMatch
        },
        new_password@.len() > 0 && old(sc).recovery@.len() > 0 && is_hex_text(old(sc).verify@)
            && spec_recovery_scan(*old(sc), code@) is DeriveFails ==> r matches Err(AppError::Crypto(_)),
        new_password@.len() > 0 && old(sc).recovery@.len() > 0 && is_hex_text(old(sc).verify@)
            && spec_recovery_scan(*old(sc), code@) is Opens
            ==> ((r matches Ok(k) && k@ == spec_recovery_scan(*old(sc), code@)->key) || r matches Err(AppError::Crypto(_))),
        r is Err ==> *final(sc) == *old(sc),
        r matches Ok(k) ==> {
            &&& spec_recovery_scan(*old(sc), code@) matches RecoveryScan::Opens { index, key }
            &&& key == k@
            &&& final(sc).recovery@ == old(sc).recovery@.remove(index)
            &&& spec_verifies(k@, spec_hex_decode(old(sc).verify@))
            &&& spec_unlock(*final(sc), new_password@) == Some(k@)
            &&& same_but_password_and_recovery(*old(sc), *final(sc))
            &&& final(sc).failed_attempts == 0
            &&& final(sc).locked_until_ms == 0
        },
{
    if new_password.is_empty() {
        return Err(AppError::invalid("new password must not be empty"));
    }
    if !has_recovery(sc) {
        return Err(AppError::NoRecovery);
    }
    let verify = decode_field(&sc.verify, "corrupt verify blob")?;
    let normalized = normalize_code(code);
    let n = sc.recovery.len();
    let ghost entries = sc.recovery@;
    let mut i: usize = 0;
    while i < n
        invariant
            n == sc.recovery@.len(),
            entries == sc.recovery@,
            0 <= i <= n,
            *sc == *old(sc),
            is_hex_text(sc.verify@),
            verify@ == spec_hex_decode(sc.verify@),
            normalized@ == spec_normalize(code@),
            new_password@.len() > 0,
            sc.recovery@.len() > 0,
            spec_recovery_scan(*sc, code@) == recovery_scan_from(entries, normalized@, sc.kdf, verify@, i as int),
        decreases n - i,
    {
        let salt = match hex_decode(sc.recovery[i].salt.as_str()) {
            Ok(s) => s,
            Err(_) => {
                i = i + 1;
                continue;
            },
        };
        let wrap = match hex_decode(sc.recovery[i].wrap.as_str()) {
            Ok(w) => w,
            Err(_) => {
                i = i + 1;
                continue;
            },
        };
        let code_key = derive_key(normalized.as_str(), salt.as_slice(), &sc.kdf)?;
        if let Some(master_key) = unwrap_master(&code_key, wrap.as_slice(), verify.as_slice()) {
            let (pw_salt, master_wrap) = wrap_under_secret(new_password, &master_key, &sc.kdf)?;
            sc.pw_salt = pw_salt;
            sc.master_wrap = master_wrap;
            sc.recovery.remove(i);
            sc.failed_attempts = 0;
            sc.locked_until_ms = 0;
            return Ok(master_key);
        }
        i = i + 1;
    }
    Err(AppError::WrongRecoveryCode)
}

// ---------------------------------------------------------------------------
// Biometric wrap
// ---------------------------------------------------------------------------

/// The master key that the biometric `token` unwraps from the sidecar, or `None`.
pub open spec fn spec_biometric_unlock(sc: Sidecar, token: Seq<u8>) -> Option<Seq<u8>> {
    match sc.biometric_wrap {
        Some(w) => if is_hex_text(w@) && is_hex_text(sc.verify@) {
            spec_unwrap_master(token, spec_hex_decode(w@), spec_hex_decode(sc.verify@))
        } else {
            None
        },
        None => None,
    }
}

/// `b` equals `a` except for the biometric wrap.
pub open spec fn same_but_biometric(a: Sidecar, b: Sidecar) -> bool {
    &&& b.format == a.format
    &&& b.version == a.version
    &&& b.kdf == a.kdf
    &&& b.pw_salt == a.pw_salt
    &&& b.master_wrap == a.master_wrap
    &&& b.verify == a.verify
    &&& b.recovery == a.recovery
    &&& b.failed_attempts == a.failed_attempts
    &&& b.locked_until_ms == a.locked_until_ms
}

/// Store `AES-GCM(token, master_key)` in the sidecar so a biometric-released
/// token can recover the master key.
pub fn wrap_master_for_biometric(sc: &mut Sidecar, master_key: &[u8; KEY_LEN], token: &[u8; KEY_LEN]) -> (r: Result<(), AppError>)
    ensures
        same_but_biometric(*old(sc), *final(sc)),
        r is Err ==> *final(sc) == *old(sc),
        r matches Err(e) ==> e matches AppError::Crypto(_),
        r is Ok ==> (final(sc).biometric_wrap matches Some(w) && is_hex_text(w@)
            && spec_decrypt(token@, spec_hex_decode(w@)) == Some(master_key@)),
        r is Ok && is_hex_text(old(sc).verify@) && spec_verifies(master_key@, spec_hex_decode(old(sc).verify@))
            ==> spec_biometric_unlock(*final(sc), token@) == Some(master_key@),
{
    let wrap = encrypt(token, master_key.as_slice())?;
    let wrap_hex = hex_encode(wrap.as_slice());
    proof {
        crate::encoding::lemma_hex_round_trip(wrap@);
    }
    sc.biometric_wrap = Some(wrap_hex);
    Ok(())
}

/// Recover the master key from the biometric wrap using `token`.
pub fn unwrap_master_from_biometric(sc: &Sidecar, token: &[u8; KEY_LEN]) -> (r: Result<[u8; KEY_LEN], AppError>)
    ensures
        sc.biometric_wrap is None <==> r matches Err(AppError::NoRecovery),
        r matches Ok(k) ==> spec_biometric_unlock(*sc, token@) == Some(k@),
        r is Ok <==> spec_biometric_unlock(*sc, token@) is Some,
        r is Err && sc.biometric_wrap is Some ==> r matches Err(AppError::Crypto(_)),
{
    let hexed = match &sc.biometric_wrap {
        Some(h) => h,
        None => return Err(AppError::NoRecovery),
    };
    let wrap = decode_field(hexed, "corrupt biometric wrap")?;
    let mk = decrypt(token, wrap.as_slice())?;
    if mk.len() != KEY_LEN {
        return Err(AppError::crypto("bad biometric wrap length"));
    }
    let master = to_array::<KEY_LEN>(mk.as_slice());
    let verify = decode_field(&sc.verify, "corrupt verify")?;
    if !verify_key(&master, verify.as_slice()) {
        return Err(AppError::crypto("biometric wrap failed verification"));
    }
    Ok(master)
}

/// Remove the biometric wrap from the sidecar.
pub fn clear_biometric(sc: &mut Sidecar)
    ensures
        same_but_biometric(*old(sc), *final(sc)),
        final(sc).biometric_wrap is None,
{
    sc.biometric_wrap = None;
}

/// Regenerate the recovery code set. Requires the unlocked master key; the old
/// codes stop working because their wraps are replaced.
pub fn regenerate_recovery(sc: &mut Sidecar, master_key: &[u8; KEY_LEN]) -> (r: Result<Vec<String>, AppError>)
    ensures
        !is_hex_text(old(sc).verify@) ==> r matches Err(AppError::Crypto(_)),
        r matches Err(AppError::VaultLocked) <==> is_hex_text(old(sc).verify@)
            && !spec_verifies(master_key@, spec_hex_decode(old(sc).verify@)),
        r matches Err(e) ==> (e matches AppError::Crypto(_) || e matches AppError::VaultLocked),
        r is Err ==> *final(sc) == *old(sc),
        r matches Ok(codes) ==> {
            &&& recovery_wraps(codes@, final(sc).recovery@, old(sc).kdf, master_key@)
            &&& final(sc).format == old(sc).format
            &&& final(sc).version == old(sc).version
            &&& final(sc).kdf == old(sc).kdf
            &&& final(sc).pw_salt == old(sc).pw_salt
            &&& final(sc).master_wrap == old(sc).master_wrap
            &&& final(sc).verify == old(sc).verify
            &&& final(sc).failed_attempts == old(sc).failed_attempts
            &&& final(sc).locked_until_ms == old(sc).locked_until_ms
            &&& final(sc).biometric_wrap == old(sc).biometric_wrap
        },
{
    let verify = decode_field(&sc.verify, "corrupt verify blob")?;
    if !verify_key(master_key, verify.as_slice()) {
        return Err(AppError::VaultLocked);
    }
    let (codes, entries) = build_recovery(master_key, &sc.kdf)?;
    sc.recovery = entries;
    Ok(codes)
}


// ---------------------------------------------------------------------------
// Laws of recovery codes
// ---------------------------------------------------------------------------

pub open spec fn ascii_lower(c: char) -> char {
    if 'A' <= c && c <= 'Z' {
        ((c as int) + 32) as char
    } else {
        c
    }
}

proof fn lemma_normalize_concat(a: Seq<char>, b: Seq<char>)
    ensures
        spec_normalize(a + b) == spec_normalize(a) + spec_normalize(b),
    decreases b.len(),
{
    if b.len() == 0 {
        assert(a + b =~= a);
        assert(spec_normalize(a) + spec_normalize(b) =~= spec_normalize(a));
    } else {
        lemma_normalize_concat(a, b.drop_last());
        assert((a + b).drop_last() =~= a + b.drop_last());
        assert((a + b).last() == b.last());
        if is_ascii_alnum(b.last()) {
            assert(spec_normalize(a) + spec_normalize(b) =~= (spec_normalize(a) + spec_normalize(b.drop_last())).push(ascii_upper(b.last())));
        }
    }
}

proof fn lemma_normalize_hex_upper(h: Seq<char>)
    requires
        forall|i: int| 0 <= i < h.len() ==> ('0' <= #[trigger] h[i] <= '9') || ('A' <= h[i] <= 'F'),
    ensures
        spec_normalize(h) == h,
    decreases h.len(),
{
    if h.len() > 0 {
        lemma_normalize_hex_upper(h.drop_last());
        assert(h.drop_last().push(h.last()) =~= h);
    }
}

/// A recovery code, dashes and all, normalizes to the upper-case hex of its
/// random bytes.
pub proof fn lemma_normalize_recovery_code(b: Seq<u8>)
    requires
        b.len() == RECOVERY_CODE_BYTES,
    ensures
        spec_normalize(spec_recovery_code(b)) == spec_hex_upper(b),
{
    let h = spec_hex_upper(b);
    assert forall|i: int| 0 <= i < h.len() implies ('0' <= #[trigger] h[i] <= '9') || ('A' <= h[i] <= 'F') by {
        let v = b[i / 2];
        assert(0 <= v / 16 < 16 && 0 <= v % 16 < 16);
    }
    reveal_with_fuel(spec_groups, 7);
    assert forall|g: nat| 1 <= g <= 6 implies spec_normalize(#[trigger] spec_groups(h, g)) == h.subrange(0, 5 * g as int) by {
        lemma_groups_normalize(h, g);
    }
    assert(h.subrange(0, 30) =~= h);
}

proof fn lemma_groups_normalize(h: Seq<char>, g: nat)
    requires
        h.len() == 30,
        1 <= g <= 6,
        forall|i: int| 0 <= i < h.len() ==> ('0' <= #[trigger] h[i] <= '9') || ('A' <= h[i] <= 'F'),
    ensures
        spec_normalize(spec_groups(h, g)) == h.subrange(0, 5 * g as int),
    decreases g,
{
    let chunk = h.subrange(5 * (g - 1) as int, 5 * g as int);
    assert forall|i: int| 0 <= i < chunk.len() implies ('0' <= #[trigger] chunk[i] <= '9') || ('A' <= chunk[i] <= 'F') by {
        assert(chunk[i] == h[5 * (g - 1) + i]);
    }
    lemma_normalize_hex_upper(chunk);
    if g == 1 {
        assert(h.subrange(0, 5) =~= chunk);
    } else {
        lemma_groups_normalize(h, (g - 1) as nat);
        let dash: Seq<char> = seq!['-'];
        lemma_normalize_concat(spec_groups(h, (g - 1) as nat), dash);
        lemma_normalize_concat(spec_groups(h, (g - 1) as nat) + dash, chunk);
        assert(spec_normalize(dash) =~= seq![]) by {
            assert(dash.drop_last() =~= Seq::<char>::empty());
            assert(spec_normalize(dash.drop_last()) =~= seq![]);
            assert(!is_ascii_alnum(dash.last()));
        }
        assert(h.subrange(0, 5 * (g - 1) as int) + chunk =~= h.subrange(0, 5 * g as int));
    }
}

/// Case does not matter in an entered code: lower-casing ASCII letters
/// normalizes to the same code.
pub proof fn lemma_normalize_ignores_case(s: Seq<char>)
    ensures
        spec_normalize(s.map_values(|c: char| ascii_lower(c))) == spec_normalize(s),
    decreases s.len(),
{
    let l = s.map_values(|c: char| ascii_lower(c));
    if s.len() > 0 {
        lemma_normalize_ignores_case(s.drop_last());
        assert(l.drop_last() =~= s.drop_last().map_values(|c: char| ascii_lower(c)));
        assert(l.last() == ascii_lower(s.last()));
    }
}

/// The entry scan opens at or before entry `t` when every entry from `i` to
/// `t` is hex and derives a key from `code`, and entry `t` unwraps.
proof fn lemma_scan_opens_by(entries: Seq<RecoveryEntry>, code: Seq<char>, kdf: Argon2Params, verify: Seq<u8>, i: int, t: int)
    requires
        0 <= i <= t < entries.len(),
        forall|j: int| i <= j <= t ==> is_hex_text((#[trigger] entries[j]).salt@) && is_hex_text(entries[j].wrap@)
            && spec_derive_key(encode_utf8(code), spec_hex_decode(entries[j].salt@), kdf) is Some,
        spec_derive_key(encode_utf8(code), spec_hex_decode(entries[t].salt@), kdf) matches Some(ck)
            && spec_unwrap_master(ck, spec_hex_decode(entries[t].wrap@), verify) is Some,
    ensures
        recovery_scan_from(entries, code, kdf, verify, i) is Opens,
    decreases t - i,
{
    assert(is_hex_text(entries[i].salt@));
    if i < t {
        lemma_scan_opens_by(entries, code, kdf, verify, i + 1, t);
    }
}

/// Each code handed out by [`create_with_params`] or [`regenerate_recovery`],
/// entered in any form that normalizes to it, makes the entry scan of
/// [`recover`] open an entry (to a key that passes verification), so
/// [`recover`] answers it with the key or, when drawing randomness fails, a
/// `Crypto` error.
pub proof fn lemma_created_code_opens(
    codes: Seq<String>,
    entries: Seq<RecoveryEntry>,
    kdf: Argon2Params,
    master: Seq<u8>,
    verify: Seq<u8>,
    i: int,
    entered: Seq<char>,
)
    requires
        recovery_wraps(codes, entries, kdf, master),
        master.len() == KEY_LEN,
        spec_verifies(master, verify),
        0 <= i < RECOVERY_CODE_COUNT,
        spec_normalize(entered) == spec_normalize(codes[i]@),
    ensures
        recovery_scan_from(entries, spec_normalize(entered), kdf, verify, 0) is Opens,
{
    let c = spec_normalize(entered);
    assert(spec_entry_key(entries[i], spec_normalize(codes[i]@), kdf) == Some(master));
    assert forall|j: int| 0 <= j <= i implies is_hex_text((#[trigger] entries[j]).salt@) && is_hex_text(entries[j].wrap@)
        && spec_derive_key(encode_utf8(c), spec_hex_decode(entries[j].salt@), kdf) is Some by {
        assert(spec_entry_key(entries[j], spec_normalize(codes[j]@), kdf) == Some(master));
    }
    lemma_scan_opens_by(entries, c, kdf, verify, 0, i);
}

/// Entry `index` does not stop the scan from `i` on, when every other entry
/// from `i` on derives a key and does not open.
proof fn lemma_scan_without(entries: Seq<RecoveryEntry>, code: Seq<char>, kdf: Argon2Params, verify: Seq<u8>, index: int, key: Seq<u8>, i: int)
    requires
        0 <= index < entries.len(),
        0 <= i <= index,
        recovery_scan_from(entries, code, kdf, verify, i) == (RecoveryScan::Opens { index, key }),
        forall|j: int| 0 <= j < entries.len() && j != index ==> entry_spent_for(#[trigger] entries[j], code, kdf, verify),
    ensures
        recovery_scan_from(entries.remove(index), code, kdf, verify, i) is NoMatch,
    decreases index - i,
{
    let rest = entries.remove(index);
    if i < index {
        assert(rest[i] == entries[i]);
        lemma_scan_without(entries, code, kdf, verify, index, key, i + 1);
    } else {
        lemma_scan_tail(entries, code, kdf, verify, index, i);
    }
}

/// Past the removed entry, every remaining entry derives and does not open.
proof fn lemma_scan_tail(entries: Seq<RecoveryEntry>, code: Seq<char>, kdf: Argon2Params, verify: Seq<u8>, index: int, i: int)
    requires
        0 <= index < entries.len(),
        index <= i,
        forall|j: int| 0 <= j < entries.len() && j != index ==> entry_spent_for(#[trigger] entries[j], code, kdf, verify),
    ensures
        recovery_scan_from(entries.remove(index), code, kdf, verify, i) is NoMatch,
    decreases entries.len() - i,
{
    let rest = entries.remove(index);
    if i < rest.len() {
        assert(rest[i] == entries[i + 1]);
        assert(entry_spent_for(entries[i + 1], code, kdf, verify));
        lemma_scan_tail(entries, code, kdf, verify, index, i + 1);
    }
}

/// Entry `e` neither opens for `code` nor stops the scan: its salt or wrap is
/// not hex, or a key derives from `code` and does not unwrap a verified key.
pub open spec fn entry_spent_for(e: RecoveryEntry, code: Seq<char>, kdf: Argon2Params, verify: Seq<u8>) -> bool {
    is_hex_text(e.salt@) && is_hex_text(e.wrap@) ==> (
        spec_derive_key(encode_utf8(code), spec_hex_decode(e.salt@), kdf) matches Some(ck)
            && spec_unwrap_master(ck, spec_hex_decode(e.wrap@), verify) is None)
}

/// A recovery code is spent once used: after [`recover`] opened entry `index`
/// with `code` and removed it, the same code no longer opens any entry, so
/// [`recover`] answers it with `WrongRecoveryCode` (or `NoRecovery` when no
/// entry is left). This holds when `code` opens no other entry, as each code
/// wraps the master key under its own derived key.
pub proof fn lemma_used_code_is_spent(before: Sidecar, after: Sidecar, code: Seq<char>, index: int, key: Seq<u8>)
    requires
        spec_recovery_scan(before, code) == (RecoveryScan::Opens { index, key }),
        after.recovery@ == before.recovery@.remove(index),
        after.kdf == before.kdf,
        after.verify == before.verify,
        forall|j: int| 0 <= j < before.recovery@.len() && j != index
            ==> entry_spent_for(#[trigger] before.recovery@[j], spec_normalize(code), before.kdf, spec_hex_decode(before.verify@)),
    ensures
        spec_recovery_scan(after, code) is NoMatch,
{
    let entries = before.recovery@;
    let c = spec_normalize(code);
    let v = spec_hex_decode(before.verify@);
    lemma_scan_opens_in_range(entries, c, before.kdf, v, 0);
    lemma_scan_without(entries, c, before.kdf, v, index, key, 0);
}

/// An entry the scan opens lies at or after where the scan started.
proof fn lemma_scan_opens_in_range(entries: Seq<RecoveryEntry>, code: Seq<char>, kdf: Argon2Params, verify: Seq<u8>, i: int)
    requires
        0 <= i,
    ensures
        recovery_scan_from(entries, code, kdf, verify, i) matches RecoveryScan::Opens { index, .. }
            ==> i <= index < entries.len(),
    decreases entries.len() - i,
{
    if i < entries.len() {
        lemma_scan_opens_in_range(entries, code, kdf, verify, i + 1);
    }
}

} // verus!
