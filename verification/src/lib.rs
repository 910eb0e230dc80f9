//! Credential authentication and session-identity backend.
//!
//! The library hashes passwords with Argon2id, verifies credentials against
//! stored records, and derives a session-stable identity hash from the stored
//! password hash, so that a session layer can detect credential changes and
//! invalidate stale sessions.

pub mod backend;
pub mod config;
pub mod error;
pub mod hasher;
pub mod user;
