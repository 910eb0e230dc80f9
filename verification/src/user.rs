use vstd::prelude::*;

use crate::error::AppError;
use crate::hasher::digest_of;
use crate::hasher::parse_digest;

verus! {

/// The stable identifier a credential record carries in the store.
pub type DatabaseId = i64;

/// A credential record as the store holds it: one row of the users table.
/// `pass_hash` is the PHC-encoded password hash, which embeds the algorithm
/// identifier, its parameters, the salt and the digest.
#[derive(Clone, Debug)]
pub struct SqlUser {
    pub id: DatabaseId,
    pub username: String,
    pub pass_hash: String,
}

/// The identity record exposed to the application while a request is being
/// served. It is constructed on successful authentication or registration
/// and never persisted: only the credential record is.
#[derive(Clone, Debug, PartialEq)]
pub struct User {
    /// The database id for this user.
    pub id: DatabaseId,
    /// User-facing username; unique in the store, so it also identifies users.
    pub username: String,
    /// The raw digest bytes of the stored password hash. The session layer
    /// compares this value across requests: it is reproducible from the
    /// stored record alone, and any password change changes it, which is what
    /// invalidates sessions bound to the old credential.
    pub session_auth_hash: Vec<u8>,
}

impl User {
    /// The stable identifier the session layer keys a session by: the
    /// username, which the store keeps unique.
    pub fn id(&self) -> (r: String)
        ensures
            r@ == self.username@,
    {
        self.username.clone()
    }

    /// The bytes the session layer compares across requests to detect a
    /// credential change.
    pub fn session_auth_hash(&self) -> (r: &[u8])
        ensures
            r@ == self.session_auth_hash@,
    {
        self.session_auth_hash.as_slice()
    }
}

impl SqlUser {
    /// Convert a stored credential record into the `User` the session layer
    /// holds, deriving the session auth hash from the stored password hash.
    /// A record whose stored hash is malformed is corrupt: that is an
    /// internal error, not an authentication failure.
    pub fn to_user(self) -> (r: Result<User, AppError>)
        ensures
            r matches Ok(u) ==> u.id == self.id && u.username@ == self.username@ && digest_of(
                self.pass_hash@,
            ) == Some(u.session_auth_hash@),
            r matches Err(e) ==> digest_of(self.pass_hash@) is None && e matches AppError::Internal(
                _,
            ),
    {
        match parse_digest(self.pass_hash.as_str()) {
            Ok(digest) => Ok(
                User { id: self.id, username: self.username, session_auth_hash: digest },
            ),
            Err(e) => Err(e),
        }
    }
}

} // verus!
