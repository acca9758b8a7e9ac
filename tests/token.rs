use posts_axum::token::{issue_token, verify_token, TokenError, SESSION_LENGTH_SECS};

const SECRET: &str = "a-very-secret-signing-key";
const ALICE: u128 = 0x0123_4567_89ab_cdef_0011_2233_4455_6677;

#[test]
fn issued_token_verifies_before_expiry() {
    let t0: u64 = 1_700_000_000;
    let token = issue_token(SECRET, ALICE, t0);
    assert_eq!(verify_token(SECRET, &token, t0), Ok(ALICE));
    assert_eq!(verify_token(SECRET, &token, t0 + SESSION_LENGTH_SECS - 1), Ok(ALICE));
    assert_eq!(verify_token(SECRET, &token, 0), Ok(ALICE));
}

#[test]
fn session_length_is_fourteen_days() {
    assert_eq!(SESSION_LENGTH_SECS, 14 * 24 * 60 * 60);
}

#[test]
fn issued_token_expires_after_fourteen_days() {
    let t0: u64 = 1_700_000_000;
    let token = issue_token(SECRET, ALICE, t0);
    assert_eq!(verify_token(SECRET, &token, t0 + SESSION_LENGTH_SECS), Err(TokenError::Expired));
    assert_eq!(verify_token(SECRET, &token, t0 + SESSION_LENGTH_SECS + 1), Err(TokenError::Expired));
}

#[test]
fn token_payload_layout() {
    let token = issue_token(SECRET, ALICE, 0);
    assert!(token.starts_with("0123456789abcdef0011223344556677"));
    assert_eq!(&token[32..48], "0000000000127500");
    assert_eq!(&token[48..49], ".");
    // base64url of a 48-byte HMAC-SHA384, without padding
    assert_eq!(token.len(), 48 + 1 + 64);
    assert_ne!(&token[49..], &token[..48]);
}

#[test]
fn issuance_is_deterministic_given_the_instant() {
    assert_eq!(issue_token(SECRET, ALICE, 5), issue_token(SECRET, ALICE, 5));
    assert_ne!(issue_token(SECRET, ALICE, 5), issue_token(SECRET, ALICE, 6));
    assert_ne!(issue_token(SECRET, ALICE, 5), issue_token("another", ALICE, 5));
}

#[test]
fn other_secret_is_bad_signature() {
    let token = issue_token(SECRET, ALICE, 100);
    assert_eq!(verify_token("another-secret", &token, 100), Err(TokenError::BadSignature));
}

#[test]
fn tampering_any_single_character_fails() {
    let token = issue_token(SECRET, ALICE, 1_700_000_000);
    let chars: Vec<char> = token.chars().collect();
    for i in 0..chars.len() {
        let mut t = chars.clone();
        t[i] = if t[i] == 'A' { 'B' } else { 'A' };
        let tampered: String = t.into_iter().collect();
        assert!(verify_token(SECRET, &tampered, 1_700_000_000).is_err(), "position {}", i);
        let mut u = chars.clone();
        u[i] = if u[i] == '0' { '1' } else { '0' };
        let tampered: String = u.into_iter().collect();
        assert!(verify_token(SECRET, &tampered, 1_700_000_000).is_err(), "position {}", i);
    }
}

#[test]
fn malformed_tokens() {
    assert_eq!(verify_token(SECRET, "", 0), Err(TokenError::Malformed));
    assert_eq!(verify_token(SECRET, "garbage", 0), Err(TokenError::Malformed));
    let token = issue_token(SECRET, ALICE, 0);
    assert_eq!(verify_token(SECRET, &token[..48], 0), Err(TokenError::Malformed));
    let no_dot = format!("{}x{}", &token[..48], &token[49..]);
    assert_eq!(verify_token(SECRET, &no_dot, 0), Err(TokenError::Malformed));
}

#[test]
fn truncated_signature_is_bad_signature() {
    let token = issue_token(SECRET, ALICE, 0);
    assert_eq!(verify_token(SECRET, &token[..token.len() - 1], 0), Err(TokenError::BadSignature));
    assert_eq!(verify_token(SECRET, &token[..49], 0), Err(TokenError::BadSignature));
}

#[test]
fn extreme_identities_round_trip() {
    for id in [0u128, 1, u128::MAX] {
        let token = issue_token(SECRET, id, 42);
        assert_eq!(verify_token(SECRET, &token, 42), Ok(id));
    }
}
