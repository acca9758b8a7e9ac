//! Session tokens. A token is the library's own format, not a JWT: a payload
//! of 48 lowercase hex digits (the user's 128-bit id in 32, the expiry in
//! seconds since the epoch in 16), a `.`, then the base64url HMAC-SHA384 of
//! the payload under the process's secret. Clients treat it as opaque.

use vstd::prelude::*;

use crate::hex::{
    all_hex, append_hex, hex_num, hex_seq, hex_value, lemma_hex_round_trip, lemma_pow16_32, parse_hex, pow16,
};

verus! {

#[verifier::external_type_specification]
#[verifier::external_body]
pub struct ExJwtError(jsonwebtoken::errors::Error);

/// How long a session lasts from its issuance: fourteen days, in seconds.
pub const SESSION_LENGTH_SECS: u64 = 1209600;

/// Hex digits of the subject in a token's payload.
pub const SUBJECT_DIGITS: usize = 32;

/// Hex digits of the expiry in a token's payload.
pub const EXPIRY_DIGITS: usize = 16;

/// Length of a token's payload: the subject, then the expiry.
pub const PAYLOAD_LEN: usize = 48;

/// The base64url text of the HMAC-SHA384 of `message` under the key `secret`.
pub uninterp spec fn hs384_sig(message: Seq<char>, secret: Seq<char>) -> Seq<char>;

/// Why a token was refused.
#[derive(PartialEq, Eq, Structural, Debug, Clone, Copy)]
pub enum TokenError {
    /// Not of the token's shape.
    Malformed,
    /// The signature does not match the payload under the secret.
    BadSignature,
    /// The session's expiry is not after the time of verification.
    Expired,
}

/// The payload that carries `subject` and the expiry `exp`.
pub open spec fn payload_of(subject: u128, exp: u64) -> Seq<char> {
    hex_seq(subject as nat, SUBJECT_DIGITS as nat) + hex_seq(exp as nat, EXPIRY_DIGITS as nat)
}

/// The token issued at `now` for `subject` under `secret`.
pub open spec fn issued_token(secret: Seq<char>, subject: u128, now: int) -> Seq<char> {
    let payload = payload_of(subject, (now + SESSION_LENGTH_SECS) as u64);
    payload + seq!['.'] + hs384_sig(payload, secret)
}

/// What verifying `token` under `secret` at time `now` gives: the frame first,
/// then the signature, then the payload's contents, then the expiry.
pub open spec fn token_check(secret: Seq<char>, token: Seq<char>, now: int) -> Result<u128, TokenError> {
    if token.len() <= PAYLOAD_LEN || token[PAYLOAD_LEN as int] != '.' {
        Err(TokenError::Malformed)
    } else {
        let payload = token.subrange(0, PAYLOAD_LEN as int);
        let sig = token.subrange(PAYLOAD_LEN + 1, token.len() as int);
        if sig != hs384_sig(payload, secret) {
            Err(TokenError::BadSignature)
        } else if !all_hex(payload) {
            Err(TokenError::Malformed)
        } else {
            let subject = hex_num(payload.subrange(0, SUBJECT_DIGITS as int));
            let exp = hex_num(payload.subrange(SUBJECT_DIGITS as int, PAYLOAD_LEN as int));
            if exp <= now {
                Err(TokenError::Expired)
            } else {
                Ok(subject as u128)
            }
        }
    }
}

/// Relies on jsonwebtoken::crypto::sign with HS384: for the HMAC algorithms it
/// always succeeds and returns the base64url HMAC of the message.
#[verifier::external_body]
fn sign_hs384(message: &str, secret: &str) -> (r: Result<String, jsonwebtoken::errors::Error>)
    ensures
        r is Ok,
        r matches Ok(s) ==> s@ == hs384_sig(message@, secret@),
{
    let key = jsonwebtoken::EncodingKey::from_secret(secret.as_bytes());
    jsonwebtoken::crypto::sign(message.as_bytes(), &key, jsonwebtoken::Algorithm::HS384)
}

/// Relies on jsonwebtoken::crypto::verify with HS384: it signs the message again
/// and compares the two signatures in constant time.
#[verifier::external_body]
fn verify_hs384(signature: &str, message: &str, secret: &str) -> (r: Result<bool, jsonwebtoken::errors::Error>)
    ensures
        r is Ok,
        r matches Ok(b) ==> b == (signature@ == hs384_sig(message@, secret@)),
{
    let key = jsonwebtoken::DecodingKey::from_secret(secret.as_bytes());
    jsonwebtoken::crypto::verify(signature, message.as_bytes(), &key, jsonwebtoken::Algorithm::HS384)
}

/// Issues the session token of `subject` at time `now` (seconds since the
/// epoch): its expiry is fourteen days later, and it is signed with `secret`.
pub fn issue_token(secret: &str, subject: u128, now: u64) -> (r: String)
    requires
        now + SESSION_LENGTH_SECS <= u64::MAX,
    ensures
        r@ == issued_token(secret@, subject, now as int),
{
    let exp: u64 = now + SESSION_LENGTH_SECS;
    let mut payload = String::new();
    append_hex(&mut payload, subject, SUBJECT_DIGITS);
    append_hex(&mut payload, exp as u128, EXPIRY_DIGITS);
    let mut token = payload.clone();
    proof {
        reveal_strlit(".");
    }
    token.append(".");
    match sign_hs384(payload.as_str(), secret) {
        Ok(sig) => {
            token.append(sig.as_str());
        },
        // HMAC signing does not fail.
        Err(_) => {},
    }
    proof {
        assert(payload@ == payload_of(subject, exp));
    }
    token
}

/// Verifies `token` under `secret` at time `now`: the subject when the token
/// is well formed, signed with `secret` and not yet expired.
pub fn verify_token(secret: &str, token: &str, now: u64) -> (r: Result<u128, TokenError>)
    ensures
        r == token_check(secret@, token@, now as int),
{
    let len = token.unicode_len();
    if len <= PAYLOAD_LEN || token.get_char(PAYLOAD_LEN) != '.' {
        return Err(TokenError::Malformed);
    }
    let payload = token.substring_char(0, PAYLOAD_LEN);
    let sig = token.substring_char(PAYLOAD_LEN + 1, len);
    let signed = match verify_hs384(sig, payload, secret) {
        Ok(b) => b,
        // HMAC verification does not fail; were it to, the token is refused.
        Err(_) => false,
    };
    if !signed {
        return Err(TokenError::BadSignature);
    }
    let subject = parse_hex(payload, 0, SUBJECT_DIGITS);
    let exp = parse_hex(payload, SUBJECT_DIGITS, EXPIRY_DIGITS);
    proof {
        let p = payload@;
        assert(all_hex(p) <==> all_hex(p.subrange(0, 32)) && all_hex(p.subrange(32, 48))) by {
            if all_hex(p.subrange(0, 32)) && all_hex(p.subrange(32, 48)) {
                assert forall|i: int| 0 <= i < p.len() implies 0 <= #[trigger] hex_value(p[i]) by {
                    if i < 32 {
                        assert(p[i] == p.subrange(0, 32)[i]);
                    } else {
                        assert(p[i] == p.subrange(32, 48)[i - 32]);
                    }
                }
            }
            if all_hex(p) {
                assert forall|i: int| 0 <= i < 32 implies 0 <= #[trigger] hex_value(p.subrange(0, 32)[i]) by {
                    assert(p[i] == p.subrange(0, 32)[i]);
                }
                assert forall|i: int| 0 <= i < 16 implies 0 <= #[trigger] hex_value(p.subrange(32, 48)[i]) by {
                    assert(p[i + 32] == p.subrange(32, 48)[i]);
                }
            }
        }
    }
    match (subject, exp) {
        (Some(s), Some(e)) => {
            proof {
                lemma_pow16_32();
            }
            if e <= now as u128 {
                Err(TokenError::Expired)
            } else {
                Ok(s)
            }
        },
        _ => Err(TokenError::Malformed),
    }
}

proof fn lemma_issued_parts(secret: Seq<char>, subject: u128, issued_at: int)
    requires
        0 <= issued_at,
        issued_at + SESSION_LENGTH_SECS <= u64::MAX,
    ensures
        ({
            let token = issued_token(secret, subject, issued_at);
            let payload = token.subrange(0, PAYLOAD_LEN as int);
            &&& token.len() > PAYLOAD_LEN
            &&& token[PAYLOAD_LEN as int] == '.'
            &&& payload == payload_of(subject, (issued_at + SESSION_LENGTH_SECS) as u64)
            &&& token.subrange(PAYLOAD_LEN + 1, token.len() as int) == hs384_sig(payload, secret)
            &&& all_hex(payload)
            &&& hex_num(payload.subrange(0, SUBJECT_DIGITS as int)) == subject
            &&& hex_num(payload.subrange(SUBJECT_DIGITS as int, PAYLOAD_LEN as int)) == issued_at
                + SESSION_LENGTH_SECS
        }),
{
    let exp = (issued_at + SESSION_LENGTH_SECS) as u64;
    let a = hex_seq(subject as nat, 32);
    let b = hex_seq(exp as nat, 16);
    let payload = payload_of(subject, exp);
    let token = issued_token(secret, subject, issued_at);
    lemma_pow16_32();
    lemma_hex_round_trip(subject as nat, 32);
    lemma_hex_round_trip(exp as nat, 16);
    assert(payload =~= a + b);
    assert(token.subrange(0, 48) =~= payload);
    assert(token.subrange(49, token.len() as int) =~= hs384_sig(payload, secret));
    assert(payload.subrange(0, 32) =~= a);
    assert(payload.subrange(32, 48) =~= b);
    assert(all_hex(payload)) by {
        assert forall|i: int| 0 <= i < payload.len() implies 0 <= #[trigger] hex_value(payload[i]) by {
            if i < 32 {
                assert(payload[i] == a[i]);
            } else {
                assert(payload[i] == b[i - 32]);
            }
        }
    }
}

/// A token verifies, to the subject it was issued for, at every instant before
/// its fourteen days have run out.
pub proof fn lemma_issued_token_verifies(secret: Seq<char>, subject: u128, issued_at: int, now: int)
    requires
        0 <= issued_at,
        issued_at + SESSION_LENGTH_SECS <= u64::MAX,
        now < issued_at + SESSION_LENGTH_SECS,
    ensures
        token_check(secret, issued_token(secret, subject, issued_at), now) == Ok::<u128, TokenError>(
            subject,
        ),
{
    lemma_issued_parts(secret, subject, issued_at);
}

/// Once its fourteen days have run out, a token is refused as expired.
pub proof fn lemma_issued_token_expires(secret: Seq<char>, subject: u128, issued_at: int, now: int)
    requires
        0 <= issued_at,
        issued_at + SESSION_LENGTH_SECS <= u64::MAX,
        now >= issued_at + SESSION_LENGTH_SECS,
    ensures
        token_check(secret, issued_token(secret, subject, issued_at), now) == Err::<u128, TokenError>(
            TokenError::Expired,
        ),
{
    lemma_issued_parts(secret, subject, issued_at);
}

/// Changing one character of an issued token at the separator or in its
/// signature makes it fail to verify.
pub proof fn lemma_tampered_signature_fails(
    secret: Seq<char>,
    subject: u128,
    issued_at: int,
    tampered: Seq<char>,
    i: int,
    now: int,
)
    requires
        0 <= issued_at,
        issued_at + SESSION_LENGTH_SECS <= u64::MAX,
        tampered.len() == issued_token(secret, subject, issued_at).len(),
        PAYLOAD_LEN <= i < tampered.len(),
        tampered[i] != issued_token(secret, subject, issued_at)[i],
        forall|j: int|
            0 <= j < tampered.len() && j != i ==> tampered[j] == #[trigger] issued_token(
                secret,
                subject,
                issued_at,
            )[j],
    ensures
        token_check(secret, tampered, now) is Err,
{
    lemma_issued_parts(secret, subject, issued_at);
    let token = issued_token(secret, subject, issued_at);
    if i > PAYLOAD_LEN {
        assert(tampered.subrange(0, 48) =~= token.subrange(0, 48));
        let sig = token.subrange(49, token.len() as int);
        let sig2 = tampered.subrange(49, tampered.len() as int);
        assert(sig2[i - 49] != sig[i - 49]);
    }
}

} // verus!
