//! Session state: the open DB connection and the in-memory vault key. The key
//! is zeroized on lock and when another key replaces it.

use vstd::prelude::*;

use crate::crypto::{wipe, KEY_LEN};
use crate::error::AppError;

verus! {

/// The open vault, if any: connection, master key and file path.
pub struct Session {
    pub db: Option<rusqlite::Connection>,
    pub key: Option<[u8; KEY_LEN]>,
    pub path: Option<String>,
}

impl Session {
    /// A session with nothing open.
    pub fn new() -> (s: Session)
        ensures
            s.db is None && s.key is None && s.path is None,
    {
        Session { db: None, key: None, path: None }
    }

    /// Unlocked means both a key and a connection are held.
    pub fn is_unlocked(&self) -> (b: bool)
        ensures
            b == (self.key is Some && self.db is Some),
    {
        self.key.is_some() && self.db.is_some()
    }

    /// Borrow `(db, key)` or fail with `VaultLocked`.
    pub fn db_and_key(&self) -> (r: Result<(&rusqlite::Connection, &[u8; KEY_LEN]), AppError>)
        ensures
            r is Ok <==> (self.db is Some && self.key is Some),
            r matches Ok((c, k)) ==> self.db == Some(*c) && self.key == Some(*k),
            r matches Err(e) ==> e matches AppError::VaultLocked,
    {
        let db = match &self.db {
            Some(c) => c,
            None => return Err(AppError::VaultLocked),
        };
        let key = match &self.key {
            Some(k) => k,
            None => return Err(AppError::VaultLocked),
        };
        Ok((db, key))
    }

    /// Borrow the db connection (key not required), e.g. for metadata reads.
    pub fn db(&self) -> (r: Result<&rusqlite::Connection, AppError>)
        ensures
            r is Ok <==> self.db is Some,
            r matches Ok(c) ==> self.db == Some(*c),
            r matches Err(e) ==> e matches AppError::VaultLocked,
    {
        match &self.db {
            Some(c) => Ok(c),
            None => Err(AppError::VaultLocked),
        }
    }

    /// Hold `key` as the session key, zeroizing any key held before.
    pub fn set_key(&mut self, key: [u8; KEY_LEN])
        ensures
            final(self).key == Some(key),
            final(self).db == old(self).db,
            final(self).path == old(self).path,
    {
        self.lock();
        self.key = Some(key);
    }

    /// Zeroize and drop the key. The connection and path stay.
    pub fn lock(&mut self)
        ensures
            final(self).key is None,
            final(self).db == old(self).db,
            final(self).path == old(self).path,
    {
        match &mut self.key {
            Some(k) => wipe(k),
            None => {},
        }
        self.key = None;
    }
}

} // verus!
