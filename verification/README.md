# secret_manager_lib

The verified core of a local-first, end-to-end encrypted desktop vault for
project secrets: Argon2id key derivation, AES-256-GCM envelope encryption of a
random master key (password wrap, recovery-code wraps, biometric wrap), unlock
rate limiting, the SQLite data layer for projects, secrets and tags, and
export/import of portable bundles (plaintext or sealed under a passphrase).

Layout:

- `src/` — the library, written in Verus and verified:
  - `crypto.rs`, `encoding.rs`, `text.rs`: primitives (ring, argon2, hex,
    zeroize behind small trusted wrappers) and the layouts built on them;
  - `vault.rs`, `sidecar.rs`, `migrate.rs`: the envelope, recovery codes,
    rate limiting, biometric wrap and legacy-vault migration;
  - `sqlite.rs`, `db.rs`, `repo.rs`, `models.rs`: SQLite statements, schema and
    the projects/secrets/tags layer;
  - `transfer.rs`: export, import and the encrypted vault file;
  - `state.rs`, `biometric.rs`, `error.rs`: session, platform hooks, errors.
- `app/` — plain Rust around it: JSON forms of the records (serde), the
  sidecar file, database files, the migration's file moves, and the commands
  the frontend invokes.
- `tests/` — the test suite.
