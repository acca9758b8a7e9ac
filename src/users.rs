use vstd::prelude::*;

use crate::error::{is_field_error, on_username_taken, ApiError, StoreFailure, USERNAME_CONSTRAINT};
use crate::extractor::{ApiContext, AuthUser};
use crate::password::{
    hash_password, is_argon2id_phc, password_check_of, verify_password, PasswordCheck,
    MAX_PASSWORD_CHARS,
};
use crate::token::issued_token;

verus! {

/// What the store holds of a user that logs in.
pub struct StoredUser {
    pub user_id: u128,
    pub password_hash: String,
}

/// The answer to a request about the current user: a fresh token and the name.
pub struct User {
    pub token: String,
    pub username: String,
}

/// `u` answers for `user_id` under the name `username`, with a token issued for
/// that user at some instant of the clock.
pub open spec fn answers_for(ctx: &ApiContext, u: User, user_id: u128, username: Seq<char>) -> bool {
    &&& u.username@ == username
    &&& exists|now: int|
        0 <= now <= i64::MAX && u.token@ == #[trigger] issued_token(ctx.token_secret@, user_id, now)
}

/// The answer for `user_id` under the name `username`, with a token issued now.
pub fn user_response(ctx: &ApiContext, user_id: u128, username: String) -> (r: User)
    ensures
        answers_for(ctx, r, user_id, username@),
{
    let token = AuthUser { user_id }.to_token(ctx);
    User { token, username }
}

/// Logs in with `password` as the user that the store found under the name
/// `username`: no such user is a validation error on `email`, a wrong password
/// is `Unauthorized`, and a right one gives a token for that user.
pub fn login_user(ctx: &ApiContext, found: Option<StoredUser>, username: String, password: &str) -> (r: Result<User, ApiError>)
    ensures
        found is None ==> r is Err && is_field_error(r->Err_0, "email"@, "does not exist"@),
        found matches Some(s) ==> (r is Ok <==> password_check_of(password@, s.password_hash@)
            == PasswordCheck::Match),
        found matches Some(s) ==> (password_check_of(password@, s.password_hash@)
            == PasswordCheck::Mismatch ==> r == Err::<User, ApiError>(ApiError::Unauthorized)),
        found matches Some(s) ==> (password_check_of(password@, s.password_hash@)
            == PasswordCheck::CorruptHash ==> r matches Err(ApiError::Internal { .. })),
        found matches Some(s) ==> (r matches Ok(u) ==> answers_for(ctx, u, s.user_id, username@)),
{
    match found {
        None => Err(ApiError::unprocessable_entity("email", "does not exist")),
        Some(stored) => match verify_password(password, stored.password_hash.as_str()) {
            Ok(()) => Ok(user_response(ctx, stored.user_id, username)),
            Err(e) => Err(e),
        },
    }
}

/// Finishes a registration from the store's answer to the insertion: a taken
/// username is a validation error on `username`, any other failure `Internal`,
/// and a new user gets a token.
pub fn create_user(ctx: &ApiContext, inserted: Result<u128, StoreFailure>, username: String) -> (r: Result<User, ApiError>)
    ensures
        inserted matches Ok(id) ==> (r matches Ok(u) && answers_for(ctx, u, id, username@)),
        inserted matches Err(StoreFailure::UniqueViolation { constraint: c }) && c@ == USERNAME_CONSTRAINT@
            ==> r is Err && is_field_error(r->Err_0, "username"@, "username taken"@),
        inserted matches Err(StoreFailure::UniqueViolation { constraint: c }) && c@ != USERNAME_CONSTRAINT@
            ==> r matches Err(ApiError::Internal { .. }),
        inserted matches Err(StoreFailure::Other { .. }) ==> r matches Err(ApiError::Internal { .. }),
{
    match on_username_taken(inserted) {
        Ok(user_id) => Ok(user_response(ctx, user_id, username)),
        Err(e) => Err(e),
    }
}

/// Whether an update changes nothing, and so only reads the current user.
pub fn is_empty_update(username: &Option<String>, password: &Option<String>) -> (r: bool)
    ensures
        r == (username is None && password is None),
{
    username.is_none() && password.is_none()
}

/// The new password hash of an update: none when the password stays.
pub fn new_password_hash(password: Option<&str>) -> (r: Result<Option<String>, ApiError>)
    ensures
        password is None ==> r == Ok::<Option<String>, ApiError>(None),
        password matches Some(p) ==> (r matches Ok(Some(h)) ==> password_check_of(p@, h@)
            == PasswordCheck::Match && is_argon2id_phc(h@)),
        password is Some ==> (r matches Ok(h) ==> h is Some),
        password matches Some(p) && p@.len() <= MAX_PASSWORD_CHARS ==> r matches Ok(Some(_)),
        r matches Err(e) ==> e is Internal,
{
    match password {
        None => Ok(None),
        Some(p) => match hash_password(p) {
            Ok(h) => Ok(Some(h)),
            Err(e) => Err(e),
        },
    }
}

/// Finishes an update of `user_id` from the store's answer, the stored name: a
/// taken username is a validation error on `username`, any other failure
/// `Internal`.
pub fn finish_update(ctx: &ApiContext, user_id: u128, updated: Result<String, StoreFailure>) -> (r: Result<User, ApiError>)
    ensures
        updated matches Ok(name) ==> (r matches Ok(u) && answers_for(ctx, u, user_id, name@)),
        updated matches Err(StoreFailure::UniqueViolation { constraint: c }) && c@ == USERNAME_CONSTRAINT@
            ==> r is Err && is_field_error(r->Err_0, "username"@, "username taken"@),
        updated matches Err(StoreFailure::UniqueViolation { constraint: c }) && c@ != USERNAME_CONSTRAINT@
            ==> r matches Err(ApiError::Internal { .. }),
        updated matches Err(StoreFailure::Other { .. }) ==> r matches Err(ApiError::Internal { .. }),
{
    match on_username_taken(updated) {
        Ok(name) => Ok(user_response(ctx, user_id, name)),
        Err(e) => Err(e),
    }
}

} // verus!
