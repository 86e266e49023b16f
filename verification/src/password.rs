//! Password hashing: a deliberately slow, salted, cost-parameterized
//! one-way hash and its verification, via the `bcrypt` crate. The salt is
//! drawn per hash and embedded in the opaque output, so a hash alone
//! suffices to verify. Neither the plaintext nor the hash is ever logged.

use vstd::prelude::*;
use crate::errors::AuthError;

verus! {

/// The work factor used when hashing new credentials (bcrypt's default).
pub const HASH_COST: u32 = 12;

/// Whether `h` parses as a bcrypt hash string, so that verification
/// against it can run at all. Names the success of `bcrypt::verify`,
/// which depends on the stored hash alone.
pub uninterp spec fn bcrypt_hash_wf(h: Seq<char>) -> bool;

/// Whether password `p` verifies against the well-formed bcrypt hash
/// `h`. Names the boolean `bcrypt::verify` returns, a function of its
/// two arguments alone (the salt is embedded in `h`).
pub uninterp spec fn bcrypt_matches(p: Seq<char>, h: Seq<char>) -> bool;

/// Relies on `bcrypt::hash`: with a cost in the allowed `4..=31` range it
/// fails only on salt-entropy exhaustion; on success it returns a 60-byte
/// hash string against which the same password verifies (`bcrypt::verify`
/// recomputes the hash from the embedded salt and cost).
#[verifier::external_body]
fn bcrypt_hash(password: &str, cost: u32) -> (r: Option<String>)
    requires
        4 <= cost <= 31,
    ensures
        match r {
            Some(h) => h@.len() == 60 && bcrypt_hash_wf(h@) && bcrypt_matches(password@, h@),
            None => true,
        },
{
    bcrypt::hash(password, cost).ok()
}

/// Relies on `bcrypt::verify`: it fails exactly when the stored hash is
/// structurally corrupt, and otherwise reports whether the password
/// reproduces the hash under the embedded salt and cost.
#[verifier::external_body]
fn bcrypt_verify(password: &str, hash: &str) -> (r: Option<bool>)
    ensures
        r is Some <==> bcrypt_hash_wf(hash@),
        match r {
            Some(b) => b == bcrypt_matches(password@, hash@),
            None => true,
        },
{
    bcrypt::verify(password, hash).ok()
}

/// Hashes a plaintext password with a freshly drawn salt. Fails with
/// `HashingFailure` only on internal entropy exhaustion, never on the
/// shape of the input.
pub fn hash_password(password: &str) -> (r: Result<String, AuthError>)
    ensures
        match r {
            Ok(h) => h@.len() == 60 && bcrypt_hash_wf(h@) && bcrypt_matches(password@, h@),
            Err(e) => e == AuthError::HashingFailure,
        },
{
    match bcrypt_hash(password, HASH_COST) {
        Some(h) => Ok(h),
        None => Err(AuthError::HashingFailure),
    }
}

/// Everything password verification can report: corrupt stored hashes
/// are `HashingFailure`, anything else is the verification outcome.
pub open spec fn spec_verify_outcome(p: Seq<char>, h: Seq<char>) -> Result<bool, AuthError> {
    if bcrypt_hash_wf(h) {
        Ok(bcrypt_matches(p, h))
    } else {
        Err(AuthError::HashingFailure)
    }
}

/// Verifies a plaintext password against a stored hash. Fails with
/// `HashingFailure` exactly when the stored hash is structurally corrupt.
pub fn verify_password(password: &str, hash: &str) -> (r: Result<bool, AuthError>)
    ensures
        r == spec_verify_outcome(password@, hash@),
        match r {
            Ok(b) => bcrypt_hash_wf(hash@) && b == bcrypt_matches(password@, hash@),
            Err(e) => e == AuthError::HashingFailure && !bcrypt_hash_wf(hash@),
        },
{
    match bcrypt_verify(password, hash) {
        Some(b) => Ok(b),
        None => Err(AuthError::HashingFailure),
    }
}

/// Law: a password verifies against any hash freshly minted from it.
/// The premises are exactly what `hash_password(p)` guarantees of a hash
/// it returns, so `verify_password(p, h)` then returns `Ok(true)`.
pub proof fn lemma_fresh_hash_verifies(p: Seq<char>, h: Seq<char>)
    ensures
        bcrypt_hash_wf(h) && bcrypt_matches(p, h) ==> spec_verify_outcome(p, h) == Ok::<
            bool,
            AuthError,
        >(true),
{
}

} // verus!
