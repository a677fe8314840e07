//! Data records shared with the frontend.

use vstd::prelude::*;

verus! {

/// A project groups secrets.
#[derive(Debug)]
pub struct Project {
    pub id: String,
    pub name: String,
    pub description: Option<String>,
    pub created_at: i64,
    pub updated_at: i64,
}

/// A secret with its decrypted value.
#[derive(Debug)]
pub struct Secret {
    pub id: String,
    pub project_id: String,
    pub key: String,
    pub value: String,
    pub description: Option<String>,
    pub tags: Vec<String>,
    pub created_at: i64,
    pub updated_at: i64,
}

/// A secret without its value, for list and search views.
#[derive(Debug)]
pub struct SecretMeta {
    pub id: String,
    pub project_id: String,
    pub key: String,
    pub description: Option<String>,
    pub tags: Vec<String>,
    pub created_at: i64,
    pub updated_at: i64,
}

/// A tag name and its id.
#[derive(Debug)]
pub struct Tag {
    pub id: String,
    pub name: String,
}

} // verus!
