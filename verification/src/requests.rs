//! The request bodies the credential flows accept, with the format
//! constraints the core enforces before touching the store: name length
//! bounds, the minimal email shape, and a minimum password length.

use vstd::prelude::*;
use vstd::string::StrSliceExecFns;
use crate::text::valid_email;

verus! {

/// A registration request: display name, email and plaintext password.
pub struct CreateUserRequest {
    /// Display name, 2 to 255 characters.
    pub name: String,
    /// Email address.
    pub email: String,
    /// Plaintext password, at least 6 characters; never stored.
    pub password: String,
}

impl CreateUserRequest {
    /// The format constraints registration enforces.
    pub open spec fn spec_valid(&self) -> bool {
        &&& 2 <= self.name@.len() <= 255
        &&& valid_email(self.email@)
        &&& self.password@.len() >= 6
    }

    /// Whether the request meets the registration format constraints.
    pub fn validate(&self) -> (r: bool)
        ensures
            r == self.spec_valid(),
    {
        let name_len = self.name.as_str().unicode_len();
        if name_len < 2 || name_len > 255 {
            return false;
        }
        if !crate::text::check_email(self.email.as_str()) {
            return false;
        }
        self.password.as_str().unicode_len() >= 6
    }
}

/// A login request: email and the password to verify.
pub struct LoginRequest {
    /// Email address.
    pub email: String,
    /// Plaintext password; never stored or logged.
    pub password: String,
}

impl LoginRequest {
    /// The format constraints login enforces: an email shape and a
    /// non-empty password.
    pub open spec fn spec_valid(&self) -> bool {
        &&& valid_email(self.email@)
        &&& self.password@.len() >= 1
    }

    /// Whether the request meets the login format constraints.
    pub fn validate(&self) -> (r: bool)
        ensures
            r == self.spec_valid(),
    {
        if !crate::text::check_email(self.email.as_str()) {
            return false;
        }
        self.password.as_str().unicode_len() >= 1
    }
}

/// A profile edit: either field may be left unchanged.
pub struct UpdateUserRequest {
    /// New display name, if changing; 2 to 255 characters.
    pub name: Option<String>,
    /// New email address, if changing.
    pub email: Option<String>,
}

impl UpdateUserRequest {
    /// The format constraints a profile edit enforces on the fields it
    /// carries.
    pub open spec fn spec_valid(&self) -> bool {
        &&& match self.name {
            Some(n) => 2 <= n@.len() <= 255,
            None => true,
        }
        &&& match self.email {
            Some(e) => valid_email(e@),
            None => true,
        }
    }

    /// Whether the edit meets the format constraints.
    pub fn validate(&self) -> (r: bool)
        ensures
            r == self.spec_valid(),
    {
        match &self.name {
            Some(n) => {
                let len = n.as_str().unicode_len();
                if len < 2 || len > 255 {
                    return false;
                }
            },
            None => {},
        }
        match &self.email {
            Some(e) => crate::text::check_email(e.as_str()),
            None => true,
        }
    }
}

} // verus!
