use vstd::prelude::*;

use crate::error::AppError;
use argon2::password_hash::rand_core::OsRng;
use argon2::password_hash::Encoding;
use argon2::password_hash::PasswordHash;
use argon2::password_hash::SaltString;
use argon2::Argon2;
use argon2::PasswordHasher;
use argon2::PasswordVerifier;

verus! {

/// Argon2 rejects passwords longer than 2^32 - 1 bytes. A character encodes
/// to at most four bytes of UTF-8, so any password of at most this many
/// characters is within the primitive's limit.
pub const MAX_PASSWORD_CHARS: usize = 0x0FFF_FFFF;

/// The raw digest bytes embedded in a PHC-encoded password hash string:
/// `Some(digest)` when the string parses under the B64 encoding and carries
/// a hash output, `None` otherwise. This is a pure function of the stored
/// string, which is what makes the session auth hash reproducible: deriving
/// it twice from the same stored record yields the same bytes.
pub uninterp spec fn digest_of(phc: Seq<char>) -> Option<Seq<u8>>;

/// Whether Argon2 verification of `password` against the PHC-encoded hash
/// string `phc` succeeds. Verification re-derives the digest from the salt
/// and parameters embedded in `phc` and compares it against the embedded
/// digest, so the outcome is a pure function of the two arguments.
pub uninterp spec fn verifies(password: Seq<char>, phc: Seq<char>) -> bool;

/// A freshly hashed password: the PHC-encoded hash string that the store
/// keeps, and its raw digest bytes, which become the session auth hash.
pub(crate) struct HashedPassword {
    pub encoded: String,
    pub digest: Vec<u8>,
}

/// Hash `password` with Argon2id under default parameters and a fresh random
/// salt.
///
/// Relies on `password_hash::SaltString::generate` (a random 16-byte salt,
/// within Argon2's accepted salt lengths) and `argon2::Argon2::hash_password`
/// (with a valid salt and default parameters it returns a hash whose `hash`
/// field holds the digest, for every password of at most 2^32 - 1 bytes).
/// The salt is random, so nothing is claimed about the encoded string's
/// value, only what holds of every outcome: the string embeds exactly the
/// returned digest (`PasswordHash`'s PHC serialization round-trips through
/// `PasswordHash::parse`), and verification of the same password against it
/// succeeds (the `PasswordVerifier` blanket impl re-derives the digest from
/// the embedded salt and parameters).
#[verifier::external_body]
pub(crate) fn hash_password(password: &str) -> (r: Result<HashedPassword, AppError>)
    requires
        password@.len() <= MAX_PASSWORD_CHARS,
    ensures
        r is Ok,
        r matches Ok(h) ==> digest_of(h.encoded@) == Some(h.digest@) && verifies(
            password@,
            h.encoded@,
        ),
{
    let salt = SaltString::generate(&mut OsRng);
    match Argon2::default().hash_password(password.as_bytes(), &salt) {
        Ok(ph) => {
            let encoded = ph.to_string();
            match &ph.hash {
                Some(out) => Ok(HashedPassword { encoded, digest: out.as_bytes().to_vec() }),
                None => Err(AppError::Internal("password hash carries no digest".to_string())),
            }
        },
        Err(e) => Err(AppError::Internal(format!("Password hashing error: {e}"))),
    }
}

/// Parse a PHC-encoded hash string and extract the raw digest bytes, the
/// session auth hash. Relies on `password_hash::PasswordHash::parse` with
/// the B64 encoding: parsing is a pure function of the string, and the
/// `hash` field of the result holds the embedded digest when there is one.
#[verifier::external_body]
pub(crate) fn parse_digest(phc: &str) -> (r: Result<Vec<u8>, AppError>)
    ensures
        r matches Ok(d) ==> digest_of(phc@) == Some(d@),
        r matches Err(e) ==> digest_of(phc@) is None && e matches AppError::Internal(_),
{
    match PasswordHash::parse(phc, Encoding::B64) {
        Ok(ph) => match &ph.hash {
            Some(out) => Ok(out.as_bytes().to_vec()),
            None => Err(AppError::Internal("Badly formatted password hash".to_string())),
        },
        Err(e) => Err(AppError::Internal(format!("Decode password: {e}"))),
    }
}

/// Check `password` against a PHC-encoded hash string. Relies on
/// `password_hash::PasswordHash::parse` (B64 encoding) and argon2's
/// `verify_password` (the `PasswordVerifier` blanket impl): both are pure
/// functions of the arguments, so the outcome is deterministic; a string
/// that does not parse verifies nothing.
#[verifier::external_body]
pub(crate) fn verify_password(password: &str, phc: &str) -> (r: bool)
    ensures
        r == verifies(password@, phc@),
{
    match PasswordHash::parse(phc, Encoding::B64) {
        Ok(ph) => Argon2::default().verify_password(password.as_bytes(), &ph).is_ok(),
        Err(_) => false,
    }
}

} // verus!
