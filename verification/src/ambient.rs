//! The two ambient sources the flows need: fresh subject identifiers and
//! the current time. Both are inherently nondeterministic, so nothing is
//! assumed of their values beyond what holds of every outcome; every
//! rule of the core is stated and checked over whatever they return.

use vstd::prelude::*;

verus! {

/// Relies on `uuid::Uuid::new_v4` and its `Display` form: a random
/// version-4 UUID rendered as the 36-character hyphenated string. The
/// value is random, so only its length is assumed. If the operating
/// system's randomness source fails, `new_v4` aborts the process rather
/// than returning.
#[verifier::external_body]
pub fn fresh_id() -> (r: String)
    ensures
        r@.len() == 36,
{
    uuid::Uuid::new_v4().to_string()
}

/// Relies on `chrono::Utc::now`: whole seconds since the Unix epoch.
/// `Utc::now` itself does not return on a clock set before the epoch, so
/// the conversion below only guards the signed-to-unsigned cast. Nothing
/// is assumed of the value.
#[verifier::external_body]
pub fn current_unix_seconds() -> u64 {
    u64::try_from(chrono::Utc::now().timestamp()).unwrap_or(0)
}

} // verus!
