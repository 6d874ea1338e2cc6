//! Password hashing: a salted adaptive one-way hash with a fixed work factor.

use vstd::prelude::*;

verus! {

/// What `bcrypt::verify` answers for a password and a stored hash: whether the
/// hash was made from the password, or `None` where it refuses the hash as
/// malformed.
pub uninterp spec fn bcrypt_verdict(password: Seq<char>, hash: Seq<char>) -> Option<bool>;

/// The error of `bcrypt::hash` and `bcrypt::verify`, carried through as it
/// is.
#[verifier::external_type_specification]
#[verifier::external_body]
pub struct ExBcryptError(bcrypt::BcryptError);

/// Why a password could not be hashed or checked.
#[derive(Clone, Copy, Debug, PartialEq, Eq, Structural)]
pub enum PasswordError {
    /// The hashing primitive failed.
    Hashing,
    /// The stored hash is not one that the primitive reads.
    MalformedHash,
}

/// Whether `hash` is a hash of `password` as this library makes them: 60
/// characters that begin with the version `2b` and the work factor 12, and
/// that `bcrypt::verify` accepts the password against.
pub open spec fn is_hash_of(password: Seq<char>, hash: Seq<char>) -> bool {
    &&& hash.len() == 60
    &&& "$2b$12$"@.is_prefix_of(hash)
    &&& bcrypt_verdict(password, hash) == Some(true)
}

/// Calls `bcrypt::hash` with `bcrypt::DEFAULT_COST`, which is 12. The salt is
/// random, so the hash itself is not stated. What is claimed is its form,
/// `$2b$12$` followed by 22 characters of salt and 31 of digest, and that
/// `bcrypt::verify` accepts the password against it.
#[verifier::external_body]
fn bcrypt_hash(password: &str) -> (hashed: Result<String, bcrypt::BcryptError>)
    ensures
        match hashed {
            Ok(hash) => is_hash_of(password@, hash@),
            Err(_) => true,
        },
{
    bcrypt::hash(password, bcrypt::DEFAULT_COST)
}

/// Calls `bcrypt::verify`, whose answer depends on the password and the hash
/// alone.
#[verifier::external_body]
fn bcrypt_verify(password: &str, hash: &str) -> (checked: Result<bool, bcrypt::BcryptError>)
    ensures
        match checked {
            Ok(same) => bcrypt_verdict(password@, hash@) == Some(same),
            Err(_) => bcrypt_verdict(password@, hash@) is None,
        },
{
    bcrypt::verify(password, hash)
}

/// Hashes a password for storage, with a fresh salt and the work factor 12.
/// A hash that comes back is one that `verify_password` accepts for the same
/// password.
pub fn hash_password(password: &str) -> (hashed: Result<String, PasswordError>)
    ensures
        match hashed {
            Ok(hash) => is_hash_of(password@, hash@),
            Err(e) => e == PasswordError::Hashing,
        },
{
    match bcrypt_hash(password) {
        Ok(hash) => Ok(hash),
        Err(_) => Err(PasswordError::Hashing),
    }
}

/// Checks a password against a stored hash: `Ok(false)` on a mismatch, an
/// error only where the stored hash is malformed.
pub fn verify_password(password: &str, hash_password: &str) -> (checked: Result<bool, PasswordError>)
    ensures
        checked == match bcrypt_verdict(password@, hash_password@) {
            Some(same) => Ok::<bool, PasswordError>(same),
            None => Err(PasswordError::MalformedHash),
        },
{
    match bcrypt_verify(password, hash_password) {
        Ok(same) => Ok(same),
        Err(_) => Err(PasswordError::MalformedHash),
    }
}

} // verus!
