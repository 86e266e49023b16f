use authcore::auth::refresh_token;
use authcore::errors::{AuthError, TokenError};
use authcore::store::{CredentialStore, User};
use authcore::token::TokenCodec;
use authcore::TOKEN_LIFETIME_SECS;

const NOW: u64 = 1_700_000_000;

fn codec() -> TokenCodec {
    TokenCodec::new("test-secret-key".to_string())
}

/// A store holding one enabled record for `id`.
fn store_with(id: &str) -> CredentialStore {
    let mut store = CredentialStore::new();
    store
        .insert(User {
            id: id.to_string(),
            name: "Someone".to_string(),
            email: "someone@x.com".to_string(),
            password_hash: "x".repeat(60),
            created_at: NOW,
            updated_at: NOW,
            last_login: None,
            is_active: true,
        })
        .unwrap();
    store
}

/// Replaces the character at byte `pos` with a different one.
fn alter_at(token: &str, pos: usize) -> String {
    let mut out = String::new();
    for (i, c) in token.chars().enumerate() {
        if i == pos {
            out.push(if c == 'x' { 'y' } else { 'x' });
        } else {
            out.push(c);
        }
    }
    out
}

#[test]
fn test_create_and_validate_jwt() {
    let codec = codec();
    let user_id = "123e4567-e89b-12d3-a456-426614174000";
    let token = codec.create_jwt(user_id, NOW).unwrap();
    let claims = codec.validate_jwt(&token, NOW).unwrap();
    assert_eq!(claims.sub, user_id);
}

#[test]
fn test_extract_user_id() {
    let codec = codec();
    let user_id = "123e4567-e89b-12d3-a456-426614174000";
    let token = codec.create_jwt(user_id, NOW).unwrap();
    let extracted_id = codec.extract_user_id(&token, NOW).unwrap();
    assert_eq!(extracted_id, user_id);
}

#[test]
fn token_claims_carry_exact_lifetime() {
    let codec = codec();
    let token = codec.create_jwt("subject-1", NOW).unwrap();
    let claims = codec.validate_jwt(&token, NOW).unwrap();
    assert_eq!(claims.iat, NOW);
    assert_eq!(claims.exp, NOW + TOKEN_LIFETIME_SECS);
}

#[test]
fn token_valid_before_expiry_then_expired() {
    let codec = codec();
    let token = codec.create_jwt("subject-1", NOW).unwrap();
    let claims = codec.validate_jwt(&token, NOW + TOKEN_LIFETIME_SECS - 1).unwrap();
    assert_eq!(claims.sub, "subject-1");
    assert_eq!(
        codec.validate_jwt(&token, NOW + TOKEN_LIFETIME_SECS).unwrap_err(),
        TokenError::Expired
    );
    assert_eq!(
        codec.validate_jwt(&token, NOW + 2 * TOKEN_LIFETIME_SECS).unwrap_err(),
        TokenError::Expired
    );
}

#[test]
fn token_rejected_under_different_secret() {
    let codec = codec();
    let other = TokenCodec::new("another-secret-key".to_string());
    let token = codec.create_jwt("subject-1", NOW).unwrap();
    assert_eq!(other.validate_jwt(&token, NOW).unwrap_err(), TokenError::Invalid);
}

#[test]
fn token_with_truncated_signature_rejected() {
    let codec = codec();
    let mut token = codec.create_jwt("subject-1", NOW).unwrap();
    token.pop();
    assert_eq!(codec.validate_jwt(&token, NOW).unwrap_err(), TokenError::Invalid);
}

#[test]
fn token_with_altered_signature_rejected() {
    let codec = codec();
    let token = codec.create_jwt("subject-1", NOW).unwrap();
    let sig_start = token.rfind('.').unwrap() + 1;
    let tampered = alter_at(&token, sig_start);
    assert_eq!(codec.validate_jwt(&tampered, NOW).unwrap_err(), TokenError::Invalid);
}

#[test]
fn token_with_altered_payload_rejected() {
    let codec = codec();
    let token = codec.create_jwt("subject-1", NOW).unwrap();
    let payload_start = token.find('.').unwrap() + 1;
    let tampered = alter_at(&token, payload_start);
    assert_eq!(codec.validate_jwt(&tampered, NOW).unwrap_err(), TokenError::Invalid);
}

#[test]
fn garbage_token_rejected() {
    let codec = codec();
    assert_eq!(codec.validate_jwt("", NOW).unwrap_err(), TokenError::Invalid);
    assert_eq!(codec.validate_jwt("not-a-token", NOW).unwrap_err(), TokenError::Invalid);
    assert_eq!(codec.validate_jwt("a.b.c", NOW).unwrap_err(), TokenError::Invalid);
}

#[test]
fn issuance_is_deterministic() {
    let codec = codec();
    let first = codec.create_jwt("subject-1", NOW).unwrap();
    let second = codec.create_jwt("subject-1", NOW).unwrap();
    assert_eq!(first, second);
    assert_ne!(first, codec.create_jwt("subject-1", NOW + 1).unwrap());
    assert_ne!(first, codec.create_jwt("subject-2", NOW).unwrap());
}

#[test]
fn refresh_keeps_subject_and_extends_expiry() {
    let codec = codec();
    let store = store_with("subject-1");
    let token = codec.create_jwt("subject-1", NOW).unwrap();
    let later = NOW + 100;
    let fresh = refresh_token(&codec, &store, &token, later).unwrap();
    let claims = codec.validate_jwt(&fresh, later).unwrap();
    assert_eq!(claims.sub, "subject-1");
    assert_eq!(claims.iat, later);
    assert_eq!(claims.exp, later + TOKEN_LIFETIME_SECS);
    assert!(claims.exp > NOW + TOKEN_LIFETIME_SECS);
}

#[test]
fn refresh_of_expired_or_tampered_token_fails() {
    let codec = codec();
    let store = store_with("subject-1");
    let token = codec.create_jwt("subject-1", NOW).unwrap();
    assert_eq!(
        refresh_token(&codec, &store, &token, NOW + TOKEN_LIFETIME_SECS).unwrap_err(),
        AuthError::Unauthenticated
    );
    let sig_start = token.rfind('.').unwrap() + 1;
    let tampered = alter_at(&token, sig_start);
    assert_eq!(
        refresh_token(&codec, &store, &tampered, NOW).unwrap_err(),
        AuthError::Unauthenticated
    );
    let mut truncated = token.clone();
    truncated.pop();
    assert_eq!(
        refresh_token(&codec, &store, &truncated, NOW).unwrap_err(),
        AuthError::Unauthenticated
    );
}

#[test]
fn refresh_of_revoked_subject_fails() {
    let codec = codec();
    let mut store = store_with("subject-1");
    let token = codec.create_jwt("subject-1", NOW).unwrap();
    // the token itself is still sound, but the subject was disabled
    store.set_active(0, false);
    assert!(codec.validate_jwt(&token, NOW + 1).is_ok());
    assert_eq!(
        refresh_token(&codec, &store, &token, NOW + 1).unwrap_err(),
        AuthError::Unauthenticated
    );
    // a subject the store never held is revoked too
    let stranger = codec.create_jwt("subject-9", NOW).unwrap();
    assert_eq!(
        refresh_token(&codec, &store, &stranger, NOW + 1).unwrap_err(),
        AuthError::Unauthenticated
    );
}
