use vstd::prelude::*;

use crate::error::ApiError;

verus! {

#[verifier::external_type_specification]
#[verifier::external_body]
pub struct ExPasswordHashError(argon2::password_hash::Error);

/// Whether Argon2 (default parameters) accepts `password` against the PHC
/// string `stored`, which names the algorithm, its parameters and the salt.
pub uninterp spec fn argon2_accepts(password: Seq<char>, stored: Seq<char>) -> bool;

/// Whether `stored` parses as a PHC string.
pub uninterp spec fn phc_parses(stored: Seq<char>) -> bool;

/// The longest password, in characters, that Argon2 is sure to hash: its
/// UTF-8 bytes stay within Argon2's limit of `u32::MAX` bytes.
pub const MAX_PASSWORD_CHARS: usize = 0x3FFF_FFFF;

/// The detail of the error when hashing fails.
pub const HASH_FAILED: &'static str = "failed to generate password hash";

/// The detail of the error when a stored hash is not a PHC string.
pub const INVALID_HASH: &'static str = "invalid password hash";

/// How many times `c` occurs in `s`.
pub open spec fn count_char(s: Seq<char>, c: char) -> nat
    decreases s.len(),
{
    if s.len() == 0 {
        0
    } else {
        count_char(s.drop_last(), c) + if s.last() == c { 1nat } else { 0nat }
    }
}

/// `h` is a PHC string of Argon2id with all five of its `$`-led fields:
/// algorithm, version, parameters, salt and digest.
pub open spec fn is_argon2id_phc(h: Seq<char>) -> bool {
    &&& h.len() > 10
    &&& h.subrange(0, 10) == "$argon2id$"@
    &&& count_char(h, '$') == 5
}

/// How checking a password against a stored hash went.
#[derive(PartialEq, Eq, Structural, Debug, Clone, Copy)]
pub enum PasswordCheck {
    /// The password matches.
    Match,
    /// The password does not match the stored hash.
    Mismatch,
    /// The stored hash is not a PHC string.
    CorruptHash,
}

/// Relies on argon2's `PasswordHash::generate` with a salt from
/// `SaltString::generate(rand::thread_rng())`: a fresh random salt each time,
/// and a PHC string that Argon2 then accepts for the same password. With the
/// default parameters and a generated 16-byte salt it fails only for a
/// password longer than `u32::MAX` bytes. The
/// default algorithm is Argon2id, and the hash it writes always holds the
/// version, the parameters, the salt and the digest, none of them with a `$`.
#[verifier::external_body]
fn argon2_hash(password: &str) -> (r: Result<String, argon2::password_hash::Error>)
    ensures
        password@.len() <= MAX_PASSWORD_CHARS ==> r is Ok,
        r matches Ok(h) ==> phc_parses(h@) && argon2_accepts(password@, h@),
        r matches Ok(h) ==> is_argon2id_phc(h@),
{
    let salt = argon2::password_hash::SaltString::generate(rand::thread_rng());
    argon2::PasswordHash::generate(argon2::Argon2::default(), password.as_bytes(), salt.as_salt())
        .map(|h| h.to_string())
}

/// Relies on argon2's `PasswordHash::new`: whether the stored text parses as
/// a PHC string.
#[verifier::external_body]
fn phc_check(stored: &str) -> (r: bool)
    ensures
        r == phc_parses(stored@),
{
    argon2::PasswordHash::new(stored).is_ok()
}

/// Relies on argon2's `PasswordHash::verify_password` with the default Argon2
/// on the parsed hash: it accepts the password or fails with `Error::Password`,
/// its only error (a verifier's own error, such as an unknown algorithm, is
/// reported as that), comparing in constant time.
#[verifier::external_body]
fn argon2_verify(password: &str, stored: &str) -> (r: bool)
    requires
        phc_parses(stored@),
    ensures
        r == argon2_accepts(password@, stored@),
{
    match argon2::PasswordHash::new(stored) {
        Ok(hash) => hash.verify_password(&[&argon2::Argon2::default()], password.as_bytes()).is_ok(),
        Err(_) => false,
    }
}

/// Checks `password` against the stored PHC string.
pub fn check_password(password: &str, stored: &str) -> (r: PasswordCheck)
    ensures
        r == password_check_of(password@, stored@),
{
    if !phc_check(stored) {
        PasswordCheck::CorruptHash
    } else if argon2_verify(password, stored) {
        PasswordCheck::Match
    } else {
        PasswordCheck::Mismatch
    }
}

/// What checking `password` against the stored text `stored` gives.
pub open spec fn password_check_of(password: Seq<char>, stored: Seq<char>) -> PasswordCheck {
    if !phc_parses(stored) {
        PasswordCheck::CorruptHash
    } else if argon2_accepts(password, stored) {
        PasswordCheck::Match
    } else {
        PasswordCheck::Mismatch
    }
}

/// Hashes `password` with Argon2 under a fresh random salt. Every hash it
/// returns verifies against the same password; hashing succeeds for every
/// password of at most `MAX_PASSWORD_CHARS` characters.
pub fn hash_password(password: &str) -> (r: Result<String, ApiError>)
    ensures
        password@.len() <= MAX_PASSWORD_CHARS ==> r is Ok,
        r matches Ok(h) ==> password_check_of(password@, h@) == PasswordCheck::Match,
        r matches Ok(h) ==> is_argon2id_phc(h@),
        r matches Err(e) ==> (e matches ApiError::Internal { detail } && detail@ == HASH_FAILED@),
{
    match argon2_hash(password) {
        Ok(h) => Ok(h),
        Err(_) => {
            let detail = String::from_str(HASH_FAILED);
            Err(ApiError::Internal { detail })
        },
    }
}

/// What a password check means for the caller: a mismatch is `Unauthorized`,
/// a corrupt stored hash is `Internal`.
pub fn check_outcome(check: PasswordCheck) -> (r: Result<(), ApiError>)
    ensures
        check == PasswordCheck::Match ==> r is Ok,
        check == PasswordCheck::Mismatch ==> r == Err::<(), ApiError>(ApiError::Unauthorized),
        check == PasswordCheck::CorruptHash ==> (r matches Err(ApiError::Internal { detail })
            && detail@ == INVALID_HASH@),
{
    match check {
        PasswordCheck::Match => Ok(()),
        PasswordCheck::Mismatch => Err(ApiError::Unauthorized),
        PasswordCheck::CorruptHash => {
            let detail = String::from_str(INVALID_HASH);
            Err(ApiError::Internal { detail })
        },
    }
}

/// Checks `password` against the stored hash: `Ok` exactly when Argon2
/// accepts it; a wrong password is `Unauthorized`, a corrupt hash `Internal`.
pub fn verify_password(password: &str, stored: &str) -> (r: Result<(), ApiError>)
    ensures
        r is Ok <==> password_check_of(password@, stored@) == PasswordCheck::Match,
        password_check_of(password@, stored@) == PasswordCheck::Mismatch ==> r == Err::<(), ApiError>(
            ApiError::Unauthorized,
        ),
        password_check_of(password@, stored@) == PasswordCheck::CorruptHash ==> (r matches Err(
            ApiError::Internal { detail },
        ) && detail@ == INVALID_HASH@),
{
    let check = check_password(password, stored);
    check_outcome(check)
}

} // verus!
