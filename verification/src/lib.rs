//! Stateless authentication core: salted password hashing, signed
//! time-bounded bearer tokens, session lifecycle rules, and the
//! authorization guard placed in front of protected requests.

pub mod ambient;
pub mod auth;
pub mod errors;
pub mod password;
pub mod requests;
pub mod store;
pub mod text;
pub mod token;

use vstd::prelude::*;

verus! {

/// Seconds a freshly issued token stays valid: seven days.
pub const TOKEN_LIFETIME_SECS: u64 = 604800;

} // verus!
