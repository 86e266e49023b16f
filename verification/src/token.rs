//! The token codec: minting and checking compact signed bearer tokens
//! (header/payload/signature, HMAC-SHA256) whose payload is exactly
//! `{sub, iat, exp}`. The signing secret is injected at construction and
//! never read from ambient state. Signature and expiry are independent,
//! mandatory checks: the signature (and algorithm) step is handed to
//! the `jsonwebtoken` crate, the expiry check is done here against the
//! caller's clock, so no token is accepted on signature success alone.

use vstd::prelude::*;
use crate::errors::{AuthError, TokenError};
use crate::TOKEN_LIFETIME_SECS;

verus! {

/// The claims carried inside a signed token: subject identity, the
/// second it was issued, and the second it expires. Minted once, never
/// edited; a refreshed token is a fresh value.
#[derive(Debug)]
pub struct Claims {
    /// Subject: the credential record's identifier, in string form.
    pub sub: String,
    /// Issued-at, in seconds.
    pub iat: u64,
    /// Expiry, in seconds; a minted token has `exp == iat` plus the
    /// fixed lifetime.
    pub exp: u64,
}

/// What decoding a token under a secret yields: `None` when the
/// structure, algorithm or signature is bad, otherwise the `(sub, iat,
/// exp)` payload. Names the result of `jsonwebtoken::decode` (with the
/// library's fixed validation settings), a function of the token and the
/// secret alone.
pub uninterp spec fn decoded_claims(secret: Seq<char>, token: Seq<char>) -> Option<
    (Seq<char>, u64, u64),
>;

/// The codec's whole verdict on a presented token at time `now`:
/// undecodable tokens are `Invalid`, decodable ones are `Expired` once
/// `now` has reached their expiry, and claims are returned otherwise.
pub open spec fn spec_validate(secret: Seq<char>, token: Seq<char>, now: u64) -> Result<
    (Seq<char>, u64, u64),
    TokenError,
> {
    match decoded_claims(secret, token) {
        None => Err(TokenError::Invalid),
        Some((sub, iat, exp)) => if now < exp {
            Ok((sub, iat, exp))
        } else {
            Err(TokenError::Expired)
        },
    }
}

/// Law: a token minted for `sub` at `t` — one whose decoded claims are
/// exactly what `create_jwt` guarantees — validates to those same claims
/// at every instant before its expiry, and is reported expired from the
/// expiry on. Which of the two holds depends on the clock alone.
pub proof fn lemma_issue_then_validate(
    secret: Seq<char>,
    token: Seq<char>,
    sub: Seq<char>,
    t: u64,
    t2: u64,
)
    requires
        t + TOKEN_LIFETIME_SECS <= u64::MAX,
    ensures
        decoded_claims(secret, token) == Some((sub, t, (t + TOKEN_LIFETIME_SECS) as u64)) ==> (
        t2 < t + TOKEN_LIFETIME_SECS ==> spec_validate(secret, token, t2) == Ok::<_, TokenError>(
            (sub, t, (t + TOKEN_LIFETIME_SECS) as u64),
        )),
        decoded_claims(secret, token) == Some((sub, t, (t + TOKEN_LIFETIME_SECS) as u64)) ==> (
        t2 >= t + TOKEN_LIFETIME_SECS ==> spec_validate(secret, token, t2) == Err::<
            (Seq<char>, u64, u64),
            _,
        >(TokenError::Expired)),
{
}

/// The token minted for these inputs. Names the result of
/// `jsonwebtoken::encode` under an HS256 header, a function of its
/// arguments alone: the header is fixed, the claims object serializes
/// its three keys in sorted order, and the HMAC is deterministic.
pub uninterp spec fn encoded_token(secret: Seq<char>, sub: Seq<char>, iat: u64, exp: u64) -> Seq<
    char,
>;

/// Relies on `jsonwebtoken::encode` with an HS256 header: for an HMAC
/// key taken from a plain secret it cannot fail (any key length is
/// accepted, and serializing the claims object is infallible), and the
/// result is a token that `jsonwebtoken::decode` under the same secret
/// accepts and whose payload reads back as exactly `{sub, iat, exp}`.
#[verifier::external_body]
fn encode_hs256(secret: &str, sub: &str, iat: u64, exp: u64) -> (r: Option<String>)
    ensures
        r is Some,
        match r {
            Some(t) => t@ == encoded_token(secret@, sub@, iat, exp) && decoded_claims(secret@, t@)
                == Some((sub@, iat, exp)),
            None => true,
        },
{
    let mut claims = serde_json::Map::new();
    claims.insert("sub".to_string(), serde_json::Value::String(sub.to_string()));
    claims.insert("iat".to_string(), serde_json::Value::from(iat));
    claims.insert("exp".to_string(), serde_json::Value::from(exp));
    jsonwebtoken::encode(
        &jsonwebtoken::Header::default(),
        &serde_json::Value::Object(claims),
        &jsonwebtoken::EncodingKey::from_secret(secret.as_bytes()),
    ).ok()
}

/// Relies on `jsonwebtoken::decode` restricted to HS256 (a token whose
/// header names any other algorithm, including `none`, is rejected
/// before signature checking) with its own clock-based expiry check
/// turned off, so the outcome depends on the token and the secret alone;
/// expiry is checked separately by `validate_jwt`.
#[verifier::external_body]
fn decode_hs256(secret: &str, token: &str) -> (r: Option<(String, u64, u64)>)
    ensures
        match r {
            Some(c) => decoded_claims(secret@, token@) == Some((c.0@, c.1, c.2)),
            None => decoded_claims(secret@, token@) is None,
        },
{
    let mut validation = jsonwebtoken::Validation::new(jsonwebtoken::Algorithm::HS256);
    validation.validate_exp = false;
    let data = jsonwebtoken::decode::<serde_json::Value>(
        token,
        &jsonwebtoken::DecodingKey::from_secret(secret.as_bytes()),
        &validation,
    ).ok()?;
    let sub = data.claims.get("sub")?.as_str()?.to_string();
    let iat = data.claims.get("iat")?.as_u64()?;
    let exp = data.claims.get("exp")?.as_u64()?;
    Some((sub, iat, exp))
}

/// Creates and checks signed tokens under one immutable process-wide
/// signing secret, handed in at construction.
pub struct TokenCodec {
    secret: String,
}

impl TokenCodec {
    /// The signing secret, visible to specifications only.
    pub closed spec fn secret_chars(&self) -> Seq<char> {
        self.secret@
    }

    /// A codec signing with `secret`.
    pub fn new(secret: String) -> (codec: TokenCodec)
        ensures
            codec.secret_chars() == secret@,
    {
        TokenCodec { secret }
    }

    /// Mints a token for `user_id` at time `now`, expiring a fixed
    /// lifetime later. Issuance is deterministic — the same secret,
    /// subject and clock always mint the same token — and it always
    /// succeeds: this codec's HMAC configuration admits no key or
    /// encoding error. The `Result` shape is kept for the callers that
    /// surface `SigningFailure` at the transport boundary.
    pub fn create_jwt(&self, user_id: &str, now: u64) -> (r: Result<String, AuthError>)
        requires
            now + TOKEN_LIFETIME_SECS <= u64::MAX,
        ensures
            r is Ok,
            match r {
                Ok(t) => t@ == encoded_token(
                    self.secret_chars(),
                    user_id@,
                    now,
                    (now + TOKEN_LIFETIME_SECS) as u64,
                ) && decoded_claims(self.secret_chars(), t@) == Some(
                    (user_id@, now, (now + TOKEN_LIFETIME_SECS) as u64),
                ),
                Err(_) => false,
            },
    {
        let exp = now + TOKEN_LIFETIME_SECS;
        match encode_hs256(self.secret.as_str(), user_id, now, exp) {
            Some(t) => Ok(t),
            None => {
                // unreachable: HS256 encoding with a plain secret cannot fail
                proof {
                    assert(false);
                }
                Err(AuthError::SigningFailure)
            },
        }
    }

    /// Checks a presented token at time `now`: the signature, structure
    /// and algorithm must be right (`TokenError::Invalid` otherwise) and
    /// the expiry must lie strictly in the future (`TokenError::Expired`
    /// once `now` reaches it). Both checks always run.
    pub fn validate_jwt(&self, token: &str, now: u64) -> (r: Result<Claims, TokenError>)
        ensures
            match r {
                Ok(c) => spec_validate(self.secret_chars(), token@, now) == Ok::<_, TokenError>(
                    (c.sub@, c.iat, c.exp),
                ),
                Err(e) => spec_validate(self.secret_chars(), token@, now) == Err::<
                    (Seq<char>, u64, u64),
                    _,
                >(e),
            },
    {
        match decode_hs256(self.secret.as_str(), token) {
            None => Err(TokenError::Invalid),
            Some((sub, iat, exp)) => {
                if now < exp {
                    Ok(Claims { sub, iat, exp })
                } else {
                    Err(TokenError::Expired)
                }
            },
        }
    }

    /// The subject a currently valid token speaks for.
    pub fn extract_user_id(&self, token: &str, now: u64) -> (r: Result<String, TokenError>)
        ensures
            match r {
                Ok(s) => spec_validate(self.secret_chars(), token@, now) matches Ok(c) && c.0
                    == s@,
                Err(e) => spec_validate(self.secret_chars(), token@, now) == Err::<
                    (Seq<char>, u64, u64),
                    _,
                >(e),
            },
    {
        match self.validate_jwt(token, now) {
            Ok(claims) => Ok(claims.sub),
            Err(e) => Err(e),
        }
    }
}

} // verus!
