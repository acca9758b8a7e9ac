use vstd::prelude::*;

verus! {

/// The failures that leave the API, each with its own response status.
#[derive(Debug)]
pub enum ApiError {
    /// A missing, malformed, forged or expired credential, or a wrong password.
    Unauthorized,
    /// A valid identity that does not own the resource it acts on.
    Forbidden,
    /// The resource does not exist.
    NotFound,
    /// The input breaks a rule of shape or of the business, tied to one field,
    /// with the messages that say how.
    UnprocessableEntity { field: String, messages: Vec<String> },
    /// Anything else; the detail is for the server's log only.
    Internal { detail: String },
}

/// How a write to the store failed.
#[derive(Debug)]
pub enum StoreFailure {
    /// The write broke the uniqueness constraint of that name.
    UniqueViolation { constraint: String },
    /// Any other failure of the store.
    Other { detail: String },
}

/// The name of the store's uniqueness constraint on usernames.
pub const USERNAME_CONSTRAINT: &'static str = "user_username_key";

/// The HTTP status code that answers the error `e`.
pub open spec fn status_of(e: ApiError) -> u16 {
    match e {
        ApiError::Unauthorized => 401,
        ApiError::Forbidden => 403,
        ApiError::NotFound => 404,
        ApiError::UnprocessableEntity { .. } => 422,
        ApiError::Internal { .. } => 500,
    }
}

/// `r` is the field-scoped validation error `field: [message]`.
pub open spec fn is_field_error(r: ApiError, field: Seq<char>, message: Seq<char>) -> bool {
    r matches ApiError::UnprocessableEntity { field: f, messages: ms } && f@ == field && ms@.len()
        == 1 && ms@[0]@ == message
}

impl ApiError {
    /// The HTTP status code of the response for this error.
    pub fn status_code(&self) -> (r: u16)
        ensures
            r == status_of(*self),
    {
        match self {
            ApiError::Unauthorized => 401,
            ApiError::Forbidden => 403,
            ApiError::NotFound => 404,
            ApiError::UnprocessableEntity { .. } => 422,
            ApiError::Internal { .. } => 500,
        }
    }

    /// A validation error on one field.
    pub fn unprocessable_entity(field: &str, message: &str) -> (r: ApiError)
        ensures
            is_field_error(r, field@, message@),
    {
        ApiError::UnprocessableEntity {
            field: String::from_str(field),
            messages: vec![String::from_str(message)],
        }
    }
}

/// Maps a failed store write: a violation of exactly the uniqueness constraint
/// `constraint` becomes the validation error `field: message`; every other
/// failure is `Internal`. A success passes through.
pub fn on_constraint<T>(r: Result<T, StoreFailure>, constraint: &str, field: &str, message: &str) -> (out: Result<T, ApiError>)
    ensures
        r is Ok ==> out == Ok::<T, ApiError>(r->Ok_0),
        r is Err ==> out is Err,
        r matches Err(StoreFailure::UniqueViolation { constraint: c }) && c@ == constraint@
            ==> is_field_error(out->Err_0, field@, message@),
        r matches Err(StoreFailure::UniqueViolation { constraint: c }) && c@ != constraint@
            ==> out->Err_0 is Internal,
        r matches Err(StoreFailure::Other { .. }) ==> out->Err_0 is Internal,
{
    match r {
        Ok(v) => Ok(v),
        Err(StoreFailure::UniqueViolation { constraint: c }) => {
            let expected = String::from_str(constraint);
            if c == expected {
                Err(ApiError::unprocessable_entity(field, message))
            } else {
                Err(ApiError::Internal { detail: c })
            }
        },
        Err(StoreFailure::Other { detail }) => Err(ApiError::Internal { detail }),
    }
}

/// Maps a failed write of a user's row: a taken username is reported on the
/// field `username`, any other failure is `Internal`.
pub fn on_username_taken<T>(r: Result<T, StoreFailure>) -> (out: Result<T, ApiError>)
    ensures
        r is Ok ==> out == Ok::<T, ApiError>(r->Ok_0),
        r is Err ==> out is Err,
        r matches Err(StoreFailure::UniqueViolation { constraint: c }) && c@ == USERNAME_CONSTRAINT@
            ==> is_field_error(out->Err_0, "username"@, "username taken"@),
        r matches Err(StoreFailure::UniqueViolation { constraint: c }) && c@ != USERNAME_CONSTRAINT@
            ==> out->Err_0 is Internal,
        r matches Err(StoreFailure::Other { .. }) ==> out->Err_0 is Internal,
{
    on_constraint(r, USERNAME_CONSTRAINT, "username", "username taken")
}

/// A lookup that found nothing is `NotFound`.
pub fn found<T>(r: Option<T>) -> (out: Result<T, ApiError>)
    ensures
        r is Some ==> out == Ok::<T, ApiError>(r->Some_0),
        r is None ==> out == Err::<T, ApiError>(ApiError::NotFound),
{
    match r {
        Some(v) => Ok(v),
        None => Err(ApiError::NotFound),
    }
}

} // verus!
