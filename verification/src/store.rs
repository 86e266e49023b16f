//! The credential store the core consults: records of registered
//! accounts, keyed by a unique (case-insensitively compared) email. This
//! in-memory form carries the store's two invariants — no two records
//! share an email, and an enabled record always has a password hash — so
//! the flows can be checked against them; a deployment may put the same
//! narrow contract in front of a relational store.

use vstd::prelude::*;
use crate::errors::AuthError;
use crate::text::{email_eq, email_equiv, str_eq};

verus! {

/// A registered account's persisted login material. The password hash is
/// opaque and never leaves the store through a response type.
#[derive(Debug, Clone)]
pub struct User {
    /// Unique opaque subject identifier, in string form.
    pub id: String,
    /// Display name.
    pub name: String,
    /// Unique email, compared case-insensitively.
    pub email: String,
    /// Opaque salted hash of the password; never logged or returned.
    pub password_hash: String,
    /// Creation time, in seconds.
    pub created_at: u64,
    /// Last mutation time, in seconds.
    pub updated_at: u64,
    /// When the account last authenticated, if it ever has.
    pub last_login: Option<u64>,
    /// Disabled records stay in the store but authorize nothing.
    pub is_active: bool,
}

/// The public face of a record: everything but the password hash.
#[derive(Debug)]
pub struct UserResponse {
    /// The record's subject identifier.
    pub id: String,
    /// Display name.
    pub name: String,
    /// The record's email.
    pub email: String,
    /// Creation time, in seconds.
    pub created_at: u64,
    /// Last mutation time, in seconds.
    pub updated_at: u64,
}

impl User {
    /// The record as a client-visible profile, hash omitted.
    pub fn to_response(&self) -> (r: UserResponse)
        ensures
            r.id@ == self.id@,
            r.name@ == self.name@,
            r.email@ == self.email@,
            r.created_at == self.created_at,
            r.updated_at == self.updated_at,
    {
        UserResponse {
            id: self.id.clone(),
            name: self.name.clone(),
            email: self.email.clone(),
            created_at: self.created_at,
            updated_at: self.updated_at,
        }
    }
}

/// An in-memory credential store. Viewed as the sequence of its records,
/// in insertion order.
pub struct CredentialStore {
    records: Vec<User>,
}

impl View for CredentialStore {
    type V = Seq<User>;

    closed spec fn view(&self) -> Seq<User> {
        self.records@
    }
}

impl CredentialStore {
    /// The store's invariants: emails are unique up to ASCII case, and
    /// an enabled record never has an empty password hash.
    pub open spec fn wf(&self) -> bool {
        &&& forall|i: int, j: int|
            0 <= i < j < self@.len() ==> !#[trigger] email_equiv(
                self@[i].email@,
                self@[j].email@,
            )
        &&& forall|i: int|
            0 <= i < self@.len() ==> ((#[trigger] self@[i]).is_active
                ==> self@[i].password_hash@.len() > 0)
    }

    /// An empty store.
    pub fn new() -> (s: CredentialStore)
        ensures
            s@ =~= Seq::<User>::empty(),
            s.wf(),
    {
        CredentialStore { records: Vec::new() }
    }

    /// How many records the store holds.
    pub fn len(&self) -> (n: usize)
        ensures
            n == self@.len(),
    {
        self.records.len()
    }

    /// A borrow of the record at `i`.
    pub fn record_at(&self, i: usize) -> (r: &User)
        requires
            i < self@.len(),
        ensures
            *r == self@[i as int],
    {
        &self.records[i]
    }

    /// The index of the record whose email matches `email` up to ASCII
    /// case, if any.
    pub fn find_by_email(&self, email: &str) -> (r: Option<usize>)
        ensures
            match r {
                Some(i) => i < self@.len() && email_equiv(self@[i as int].email@, email@),
                None => forall|i: int|
                    0 <= i < self@.len() ==> !#[trigger] email_equiv(self@[i].email@, email@),
            },
    {
        let n = self.records.len();
        let mut i: usize = 0;
        while i < n
            invariant
                i <= n,
                n == self@.len(),
                forall|j: int| 0 <= j < i ==> !#[trigger] email_equiv(self@[j].email@, email@),
            decreases n - i,
        {
            if email_eq(self.records[i].email.as_str(), email) {
                return Some(i);
            }
            i += 1;
        }
        None
    }

    /// The index of the record with exactly this identifier, if any.
    pub fn find_by_id(&self, id: &str) -> (r: Option<usize>)
        ensures
            match r {
                Some(i) => i < self@.len() && self@[i as int].id@ == id@,
                None => forall|i: int| 0 <= i < self@.len() ==> (#[trigger] self@[i]).id@ != id@,
            },
    {
        let n = self.records.len();
        let mut i: usize = 0;
        while i < n
            invariant
                i <= n,
                n == self@.len(),
                forall|j: int| 0 <= j < i ==> (#[trigger] self@[j]).id@ != id@,
            decreases n - i,
        {
            if str_eq(self.records[i].id.as_str(), id) {
                return Some(i);
            }
            i += 1;
        }
        None
    }

    /// The index of an enabled record with exactly this identifier, if
    /// any: the live lookup behind the guard's revocation check.
    pub fn find_active_by_id(&self, id: &str) -> (r: Option<usize>)
        ensures
            match r {
                Some(i) => i < self@.len() && self@[i as int].id@ == id@
                    && self@[i as int].is_active,
                None => forall|i: int|
                    0 <= i < self@.len() ==> !((#[trigger] self@[i]).id@ == id@
                        && self@[i].is_active),
            },
    {
        let n = self.records.len();
        let mut i: usize = 0;
        while i < n
            invariant
                i <= n,
                n == self@.len(),
                forall|j: int|
                    0 <= j < i ==> !((#[trigger] self@[j]).id@ == id@ && self@[j].is_active),
            decreases n - i,
        {
            if self.records[i].is_active && str_eq(self.records[i].id.as_str(), id) {
                return Some(i);
            }
            i += 1;
        }
        None
    }

    /// In a well-formed store, two records that both match one email (up
    /// to ASCII case) are the same record.
    pub proof fn lemma_email_unique(&self, email: Seq<char>, i: int, j: int)
        requires
            self.wf(),
            0 <= i < self@.len(),
            0 <= j < self@.len(),
            email_equiv(self@[i].email@, email),
            email_equiv(self@[j].email@, email),
        ensures
            i == j,
    {
        if i < j {
            assert(email_equiv(self@[i].email@, self@[j].email@));
        } else if j < i {
            assert(email_equiv(self@[j].email@, self@[i].email@));
        }
    }

    /// Appends a fresh record, unless a record with the same email (up
    /// to ASCII case) already exists; the uniqueness rule makes a
    /// concurrent duplicate a `DuplicateCredential` conflict, never a
    /// second record.
    pub fn insert(&mut self, user: User) -> (r: Result<(), AuthError>)
        requires
            old(self).wf(),
            user.is_active ==> user.password_hash@.len() > 0,
        ensures
            final(self).wf(),
            match r {
                Ok(()) => final(self)@ =~= old(self)@.push(user) && (forall|i: int|
                    0 <= i < old(self)@.len() ==> !#[trigger] email_equiv(
                        old(self)@[i].email@,
                        user.email@,
                    )),
                Err(e) => e == AuthError::DuplicateCredential && final(self)@ == old(self)@
                    && (exists|i: int|
                    0 <= i < old(self)@.len() && #[trigger] email_equiv(
                        old(self)@[i].email@,
                        user.email@,
                    )),
            },
    {
        match self.find_by_email(user.email.as_str()) {
            Some(_) => Err(AuthError::DuplicateCredential),
            None => {
                self.records.push(user);
                Ok(())
            },
        }
    }

    /// Enables or disables the account at `i`: the logical deletion this
    /// store uses in place of removing records. Once disabled, the
    /// account's outstanding tokens stop authorizing requests at the
    /// guard's next live lookup.
    pub fn set_active(&mut self, i: usize, active: bool)
        requires
            old(self).wf(),
            i < old(self)@.len(),
            active ==> old(self)@[i as int].password_hash@.len() > 0,
        ensures
            final(self).wf(),
            final(self)@ =~= old(self)@.update(
                i as int,
                User { is_active: active, ..old(self)@[i as int] },
            ),
    {
        self.records[i].is_active = active;
    }

    /// Records that the account at `i` just authenticated, leaving every
    /// other field and record unchanged.
    pub fn touch_last_login(&mut self, i: usize, t: u64)
        requires
            old(self).wf(),
            i < old(self)@.len(),
        ensures
            final(self).wf(),
            final(self)@ =~= old(self)@.update(
                i as int,
                User { last_login: Some(t), ..old(self)@[i as int] },
            ),
    {
        self.records[i].last_login = Some(t);
    }
}

} // verus!
