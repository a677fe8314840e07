//! Verified core of a local-first encrypted vault for project secrets.

pub mod biometric;
pub mod crypto;
pub mod db;
pub mod encoding;
pub mod error;
pub mod migrate;
pub mod models;
pub mod repo;
pub mod sidecar;
pub mod sqlite;
pub mod state;
pub mod text;
pub mod transfer;
pub mod vault;
