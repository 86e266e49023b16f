//! The credential flows and the authorization guard: registration, login,
//! token validation against the live store, logout, refresh, and the
//! guard that turns an authorization header into an authenticated
//! identity. Every decision is a function of the inputs, the store's
//! records and the caller's clock; the guard itself never mutates
//! credential state.

use vstd::prelude::*;
use crate::TOKEN_LIFETIME_SECS;
use crate::errors::AuthError;
use crate::ambient::fresh_id;
use crate::password::{bcrypt_hash_wf, bcrypt_matches, hash_password, verify_password};
use crate::requests::{CreateUserRequest, LoginRequest};
use crate::store::{CredentialStore, User, UserResponse};
use crate::text::{email_equiv, extract_bearer, spec_bearer_token};
use crate::token::{decoded_claims, encoded_token, spec_validate, TokenCodec};

verus! {

/// A minted token together with the public profile it speaks for.
#[derive(Debug)]
pub struct AuthResponse {
    /// The signed bearer token.
    pub token: String,
    /// The account's public profile; never carries the password hash.
    pub user: UserResponse,
}

/// What the guard hands to downstream handlers: the identity the request
/// is authenticated as. Request-scoped and read-only; never stored.
#[derive(Debug)]
pub struct AuthenticatedIdentity {
    /// The subject the presented token speaks for, freshly re-checked
    /// against the store.
    pub subject_id: String,
}

/// Whether some record already claims this email, up to ASCII case.
pub open spec fn email_taken(records: Seq<User>, email: Seq<char>) -> bool {
    exists|i: int| 0 <= i < records.len() && #[trigger] email_equiv(records[i].email@, email)
}

/// Whether record `i` is the enabled record for this email.
pub open spec fn active_email_match(records: Seq<User>, email: Seq<char>, i: int) -> bool {
    &&& 0 <= i < records.len()
    &&& email_equiv(records[i].email@, email)
    &&& records[i].is_active
}

/// Whether the subject still exists in the store and is enabled: the
/// live check that makes disabling an account revoke its tokens.
pub open spec fn subject_enabled(records: Seq<User>, id: Seq<char>) -> bool {
    exists|i: int|
        0 <= i < records.len() && (#[trigger] records[i]).id@ == id && records[i].is_active
}

/// What registration at time `now` persists for a request: an enabled
/// record carrying the submitted name and email, stamped `now`, holding
/// a salted hash the submitted password verifies against — never the
/// password itself.
pub open spec fn fresh_record(rec: User, req: CreateUserRequest, now: u64) -> bool {
    &&& rec.id@.len() == 36
    &&& rec.name@ == req.name@
    &&& rec.email@ == req.email@
    &&& rec.is_active
    &&& rec.created_at == now
    &&& rec.updated_at == now
    &&& rec.last_login is None
    &&& rec.password_hash@.len() == 60
    &&& bcrypt_hash_wf(rec.password_hash@)
    &&& bcrypt_matches(req.password@, rec.password_hash@)
}

/// Registers a new account: checks the field formats, refuses an email
/// that already has a record, hashes the password, persists a fresh
/// enabled record, and issues a token for it — owed whenever the hash
/// was minted, since issuance cannot fail. The returned profile never
/// includes the password hash.
pub fn signup(
    codec: &TokenCodec,
    store: &mut CredentialStore,
    req: &CreateUserRequest,
    now: u64,
) -> (r: Result<AuthResponse, AuthError>)
    requires
        old(store).wf(),
        now + TOKEN_LIFETIME_SECS <= u64::MAX,
    ensures
        final(store).wf(),
        match r {
            Ok(resp) => ({
                let rec = final(store)@.last();
                &&& req.spec_valid()
                &&& !email_taken(old(store)@, req.email@)
                &&& final(store)@ =~= old(store)@.push(rec)
                &&& fresh_record(rec, *req, now)
                &&& resp.user.id@ == rec.id@
                &&& resp.user.name@ == req.name@
                &&& resp.user.email@ == req.email@
                &&& resp.user.created_at == now
                &&& resp.user.updated_at == now
                &&& decoded_claims(codec.secret_chars(), resp.token@) == Some(
                    (rec.id@, now, (now + TOKEN_LIFETIME_SECS) as u64),
                )
            }),
            Err(e) => match e {
                AuthError::ValidationFailed => !req.spec_valid() && final(store)@ == old(store)@,
                AuthError::DuplicateCredential => req.spec_valid() && email_taken(
                    old(store)@,
                    req.email@,
                ) && final(store)@ == old(store)@,
                AuthError::HashingFailure => req.spec_valid() && !email_taken(
                    old(store)@,
                    req.email@,
                ) && final(store)@ == old(store)@,
                _ => false,
            },
        },
{
    if !req.validate() {
        return Err(AuthError::ValidationFailed);
    }
    match store.find_by_email(req.email.as_str()) {
        Some(_) => {
            return Err(AuthError::DuplicateCredential);
        },
        None => {},
    }
    let password_hash = match hash_password(req.password.as_str()) {
        Ok(h) => h,
        Err(e) => {
            return Err(e);
        },
    };
    let id = fresh_id();
    let rec = User {
        id: id.clone(),
        name: req.name.clone(),
        email: req.email.clone(),
        password_hash,
        created_at: now,
        updated_at: now,
        last_login: None,
        is_active: true,
    };
    match store.insert(rec) {
        Err(e) => {
            // unreachable: the email was just checked to be free
            proof {
                assert(false);
            }
            Err(e)
        },
        Ok(()) => {
            let token = match codec.create_jwt(id.as_str(), now) {
                Ok(t) => t,
                Err(e) => {
                    // unreachable: issuance cannot fail
                    proof {
                        assert(false);
                    }
                    return Err(e);
                },
            };
            let idx = store.len() - 1;
            Ok(AuthResponse { token, user: store.record_at(idx).to_response() })
        },
    }
}

/// Logs an account in: finds the enabled record for the email, verifies
/// the password against the stored hash, records the login time (the
/// store cannot refuse this here, so the best-effort rule costs
/// nothing), and issues a token. A missing account and a wrong password
/// are deliberately the same failure.
pub fn signin(
    codec: &TokenCodec,
    store: &mut CredentialStore,
    req: &LoginRequest,
    now: u64,
) -> (r: Result<AuthResponse, AuthError>)
    requires
        old(store).wf(),
        now + TOKEN_LIFETIME_SECS <= u64::MAX,
    ensures
        final(store).wf(),
        match r {
            Ok(resp) => ({
                &&& req.spec_valid()
                &&& exists|i: int|
                    {
                        &&& #[trigger] active_email_match(old(store)@, req.email@, i)
                        &&& bcrypt_hash_wf(old(store)@[i].password_hash@)
                        &&& bcrypt_matches(req.password@, old(store)@[i].password_hash@)
                        &&& decoded_claims(codec.secret_chars(), resp.token@) == Some(
                            (old(store)@[i].id@, now, (now + TOKEN_LIFETIME_SECS) as u64),
                        )
                        &&& resp.user.id@ == old(store)@[i].id@
                        &&& resp.user.name@ == old(store)@[i].name@
                        &&& resp.user.email@ == old(store)@[i].email@
                        &&& resp.user.created_at == old(store)@[i].created_at
                        &&& resp.user.updated_at == old(store)@[i].updated_at
                        &&& final(store)@ =~= old(store)@.update(
                            i,
                            User { last_login: Some(now), ..old(store)@[i] },
                        )
                    }
            }),
            Err(e) => match e {
                AuthError::ValidationFailed => !req.spec_valid() && final(store)@ == old(store)@,
                AuthError::InvalidCredentials => ({
                    &&& req.spec_valid()
                    &&& final(store)@ == old(store)@
                    &&& ((forall|i: int|
                        !#[trigger] active_email_match(old(store)@, req.email@, i)) || (exists|
                        i: int,
                    |
                        #[trigger] active_email_match(old(store)@, req.email@, i)
                            && bcrypt_hash_wf(old(store)@[i].password_hash@) && !bcrypt_matches(
                            req.password@,
                            old(store)@[i].password_hash@,
                        )))
                }),
                AuthError::HashingFailure => ({
                    &&& req.spec_valid()
                    &&& final(store)@ == old(store)@
                    &&& exists|i: int|
                        #[trigger] active_email_match(old(store)@, req.email@, i)
                            && !bcrypt_hash_wf(old(store)@[i].password_hash@)
                }),
                _ => false,
            },
        },
{
    if !req.validate() {
        return Err(AuthError::ValidationFailed);
    }
    let idx = match store.find_by_email(req.email.as_str()) {
        None => {
            return Err(AuthError::InvalidCredentials);
        },
        Some(i) => i,
    };
    if !store.record_at(idx).is_active {
        proof {
            assert forall|i: int| !#[trigger] active_email_match(store@, req.email@, i) by {
                if active_email_match(store@, req.email@, i) {
                    store.lemma_email_unique(req.email@, i, idx as int);
                }
            }
        }
        return Err(AuthError::InvalidCredentials);
    }
    proof {
        assert(active_email_match(store@, req.email@, idx as int));
    }
    let matched = match verify_password(
        req.password.as_str(),
        store.record_at(idx).password_hash.as_str(),
    ) {
        Ok(b) => b,
        Err(e) => {
            return Err(e);
        },
    };
    if !matched {
        return Err(AuthError::InvalidCredentials);
    }
    store.touch_last_login(idx, now);
    let token = match codec.create_jwt(store.record_at(idx).id.as_str(), now) {
        Ok(t) => t,
        Err(e) => {
            // unreachable: issuance cannot fail
            proof {
                assert(false);
            }
            return Err(e);
        },
    };
    Ok(AuthResponse { token, user: store.record_at(idx).to_response() })
}

/// Confirms that a presented token currently authorizes its subject:
/// signature and expiry through the codec, then the live lookup that
/// refuses a disabled or vanished subject even while the token itself is
/// still sound. Returns the subject's public profile.
pub fn validate(codec: &TokenCodec, store: &CredentialStore, token: &str, now: u64) -> (r: Result<
    UserResponse,
    AuthError,
>)
    ensures
        match r {
            Ok(resp) => spec_validate(codec.secret_chars(), token@, now) matches Ok(c) && (exists|
                i: int,
            |
                {
                    &&& 0 <= i < store@.len()
                    &&& (#[trigger] store@[i]).id@ == c.0
                    &&& store@[i].is_active
                    &&& resp.id@ == store@[i].id@
                    &&& resp.name@ == store@[i].name@
                    &&& resp.email@ == store@[i].email@
                    &&& resp.created_at == store@[i].created_at
                    &&& resp.updated_at == store@[i].updated_at
                }),
            Err(e) => e == AuthError::Unauthenticated && ((spec_validate(
                codec.secret_chars(),
                token@,
                now,
            ) is Err) || (spec_validate(codec.secret_chars(), token@, now) matches Ok(c)
                && !subject_enabled(store@, c.0))),
        },
{
    let claims = match codec.validate_jwt(token, now) {
        Err(_) => {
            return Err(AuthError::Unauthenticated);
        },
        Ok(c) => c,
    };
    match store.find_active_by_id(claims.sub.as_str()) {
        None => Err(AuthError::Unauthenticated),
        Some(i) => Ok(store.record_at(i).to_response()),
    }
}

/// Acknowledges a logout. Tokens are stateless, so nothing is revoked
/// server-side: the call only confirms that the presented token is
/// currently well-formed and unexpired.
pub fn logout(codec: &TokenCodec, token: &str, now: u64) -> (r: Result<(), AuthError>)
    ensures
        match r {
            Ok(()) => spec_validate(codec.secret_chars(), token@, now) is Ok,
            Err(e) => e == AuthError::Unauthenticated && spec_validate(
                codec.secret_chars(),
                token@,
                now,
            ) is Err,
        },
{
    match codec.validate_jwt(token, now) {
        Ok(_) => Ok(()),
        Err(_) => Err(AuthError::Unauthenticated),
    }
}

/// Exchanges a currently valid token for a fresh one: the incoming token
/// is re-checked through the full codec path, the subject is re-checked
/// against the live store (a token whose subject was disabled or removed
/// is revoked and never refreshed), and only then is a new token minted
/// for the same subject, issued at `now` with a freshly computed expiry.
/// An expired or tampered token is never refreshed; a fresh token is
/// owed whenever the presented one is valid for an enabled subject.
pub fn refresh_token(
    codec: &TokenCodec,
    store: &CredentialStore,
    token: &str,
    now: u64,
) -> (r: Result<String, AuthError>)
    requires
        now + TOKEN_LIFETIME_SECS <= u64::MAX,
    ensures
        match r {
            Ok(t) => spec_validate(codec.secret_chars(), token@, now) matches Ok(c)
                && subject_enabled(store@, c.0) && t@ == encoded_token(
                codec.secret_chars(),
                c.0,
                now,
                (now + TOKEN_LIFETIME_SECS) as u64,
            ) && decoded_claims(codec.secret_chars(), t@) == Some(
                (c.0, now, (now + TOKEN_LIFETIME_SECS) as u64),
            ),
            Err(e) => e == AuthError::Unauthenticated && ((spec_validate(
                codec.secret_chars(),
                token@,
                now,
            ) is Err) || (spec_validate(codec.secret_chars(), token@, now) matches Ok(c)
                && !subject_enabled(store@, c.0))),
        },
{
    let claims = match codec.validate_jwt(token, now) {
        Err(_) => {
            return Err(AuthError::Unauthenticated);
        },
        Ok(c) => c,
    };
    let idx = match store.find_active_by_id(claims.sub.as_str()) {
        None => {
            return Err(AuthError::Unauthenticated);
        },
        Some(i) => i,
    };
    proof {
        assert(store@[idx as int].id@ == claims.sub@ && store@[idx as int].is_active);
        assert(subject_enabled(store@, claims.sub@));
    }
    match codec.create_jwt(claims.sub.as_str(), now) {
        Ok(t) => Ok(t),
        Err(e) => {
            // unreachable: issuance cannot fail
            proof {
                assert(false);
            }
            Err(e)
        },
    }
}

/// Law: a refreshed token reaches strictly further than the original
/// promised. `refresh_token` only succeeds on a currently valid token
/// for a still-enabled subject
/// and mints the new one at `now` with the fixed lifetime, so whenever
/// the original was issued before `now`, the fresh expiry strictly
/// exceeds the original's issued-at plus that lifetime.
pub proof fn lemma_refresh_extends_expiry(iat: u64, now: u64)
    requires
        iat < now,
        now + TOKEN_LIFETIME_SECS <= u64::MAX,
    ensures
        (now + TOKEN_LIFETIME_SECS) as u64 > iat + TOKEN_LIFETIME_SECS,
{
}

/// The spec image of an optional header string.
pub open spec fn spec_header_view(header: Option<&str>) -> Option<Seq<char>> {
    match header {
        Some(h) => Some(h@),
        None => None,
    }
}

/// The guard's whole verdict on a request at time `now`: a missing
/// header, a header without the bearer prefix, an undecodable or expired
/// token, and a disabled or vanished subject are all `Unauthenticated`;
/// otherwise the request is authenticated as the token's subject.
pub open spec fn spec_authorize(
    secret: Seq<char>,
    records: Seq<User>,
    header: Option<Seq<char>>,
    now: u64,
) -> Result<Seq<char>, AuthError> {
    match header {
        None => Err(AuthError::Unauthenticated),
        Some(h) => match spec_bearer_token(h) {
            None => Err(AuthError::Unauthenticated),
            Some(tok) => match spec_validate(secret, tok, now) {
                Err(_) => Err(AuthError::Unauthenticated),
                Ok(c) => if subject_enabled(records, c.0) {
                    Ok(c.0)
                } else {
                    Err(AuthError::Unauthenticated)
                },
            },
        },
    }
}

/// The guard in front of every protected route: extracts the bearer token
/// from the authorization header, runs the full token check, re-checks
/// the subject against the live store, and hands the request its
/// authenticated identity. Read-only: the store is never mutated.
pub fn authorize(
    codec: &TokenCodec,
    store: &CredentialStore,
    header: Option<&str>,
    now: u64,
) -> (r: Result<AuthenticatedIdentity, AuthError>)
    ensures
        match r {
            Ok(ident) => spec_authorize(codec.secret_chars(), store@, spec_header_view(header), now)
                == Ok::<_, AuthError>(ident.subject_id@),
            Err(e) => spec_authorize(codec.secret_chars(), store@, spec_header_view(header), now)
                == Err::<Seq<char>, _>(e),
        },
{
    let h = match header {
        None => {
            return Err(AuthError::Unauthenticated);
        },
        Some(h) => h,
    };
    let tok = match extract_bearer(h) {
        None => {
            return Err(AuthError::Unauthenticated);
        },
        Some(t) => t,
    };
    let claims = match codec.validate_jwt(tok, now) {
        Err(_) => {
            return Err(AuthError::Unauthenticated);
        },
        Ok(c) => c,
    };
    match store.find_active_by_id(claims.sub.as_str()) {
        None => Err(AuthError::Unauthenticated),
        Some(i) => Ok(AuthenticatedIdentity { subject_id: store.record_at(i).id.clone() }),
    }
}

} // verus!
