use vstd::prelude::*;

use crate::error::ApiError;
use crate::token::{issue_token, issued_token, token_check, verify_token, TokenError};

verus! {

/// What the process shares with every request: the secret that signs tokens.
pub struct ApiContext {
    pub token_secret: String,
}

/// A request made by the user `user_id`, whose token verified.
#[derive(PartialEq, Eq, Structural, Debug, Clone, Copy)]
pub struct AuthUser {
    pub user_id: u128,
}

/// A request that may come from a user whose token verified, or from nobody.
#[derive(PartialEq, Eq, Structural, Debug, Clone, Copy)]
pub struct MaybeAuthUser(pub Option<AuthUser>);

/// The user that the bearer token `bearer` proves at time `now`, if any: no
/// token, or one that does not verify, proves nobody.
pub open spec fn bearer_identity(secret: Seq<char>, bearer: Option<Seq<char>>, now: int) -> Option<u128> {
    match bearer {
        None => None,
        Some(t) => match token_check(secret, t, now) {
            Ok(u) => Some(u),
            Err(_) => None,
        },
    }
}

/// The characters of the bearer token, if one was presented.
pub open spec fn bearer_view(bearer: Option<&str>) -> Option<Seq<char>> {
    match bearer {
        None => None,
        Some(t) => Some(t@),
    }
}

/// What mandatory extraction gives for the identity `id`.
pub open spec fn required_user(id: Option<u128>) -> Result<AuthUser, ApiError> {
    match id {
        Some(u) => Ok(AuthUser { user_id: u }),
        None => Err(ApiError::Unauthorized),
    }
}

/// What optional extraction gives for the identity `id`.
pub open spec fn optional_user(id: Option<u128>) -> MaybeAuthUser {
    match id {
        Some(u) => MaybeAuthUser(Some(AuthUser { user_id: u })),
        None => MaybeAuthUser(None),
    }
}

/// Relies on `time::OffsetDateTime::now_utc` and `unix_timestamp`: the current
/// time in seconds since the epoch.
#[verifier::external_body]
fn unix_now() -> (r: i64) {
    time::OffsetDateTime::now_utc().unix_timestamp()
}

/// A clock reading in seconds since the epoch, with an instant before the
/// epoch read as the epoch.
pub fn secs_of(t: i64) -> (r: u64)
    ensures
        r == (if t < 0 { 0 } else { t as u64 }),
        r <= i64::MAX,
{
    if t < 0 {
        0
    } else {
        t as u64
    }
}

/// The current time in seconds since the epoch, as `secs_of` reads it.
pub fn now_secs() -> (r: u64)
    ensures
        r <= i64::MAX,
{
    let t = unix_now();
    secs_of(t)
}

/// What checking the bearer token `bearer` at time `now` gives: the user, or
/// why there is none (`None` when no token was presented).
pub open spec fn bearer_check(secret: Seq<char>, bearer: Option<Seq<char>>, now: int) -> Result<u128, Option<TokenError>> {
    match bearer {
        None => Err(None),
        Some(t) => match token_check(secret, t, now) {
            Ok(u) => Ok(u),
            Err(e) => Err(Some(e)),
        },
    }
}

/// The user of a bearer check, keeping the reason of a failure.
pub open spec fn identified(c: Result<u128, Option<TokenError>>) -> Result<AuthUser, Option<TokenError>> {
    match c {
        Ok(u) => Ok(AuthUser { user_id: u }),
        Err(k) => Err(k),
    }
}

/// The one answer to every failed extraction: whatever the reason, which is
/// for the server's log only, the caller sees `Unauthorized`.
pub fn refusal(_reason: Option<TokenError>) -> (r: ApiError)
    ensures
        r == ApiError::Unauthorized,
{
    ApiError::Unauthorized
}

impl AuthUser {
    /// The session token of this user, issued now.
    pub fn to_token(&self, ctx: &ApiContext) -> (r: String)
        ensures
            exists|now: int|
                0 <= now <= i64::MAX && r@ == #[trigger] issued_token(ctx.token_secret@, self.user_id, now),
    {
        let now = now_secs();
        issue_token(ctx.token_secret.as_str(), self.user_id, now)
    }

    /// The user that `token` proves now; any failure is `Unauthorized`.
    pub fn from_token(ctx: &ApiContext, token: &str) -> (r: Result<AuthUser, ApiError>)
        ensures
            exists|now: int|
                0 <= now <= i64::MAX && r == required_user(
                    #[trigger] bearer_identity(ctx.token_secret@, Some(token@), now),
                ),
    {
        let now = now_secs();
        Self::authenticate_at(ctx, Some(token), now)
    }

    /// Checks the bearer token at time `now`, keeping why it failed: no token,
    /// or a malformed, forged or expired one.
    pub fn identify_at(ctx: &ApiContext, bearer: Option<&str>, now: u64) -> (r: Result<AuthUser, Option<TokenError>>)
        ensures
            r == identified(bearer_check(ctx.token_secret@, bearer_view(bearer), now as int)),
    {
        match bearer {
            None => Err(None),
            Some(token) => match verify_token(ctx.token_secret.as_str(), token, now) {
                Ok(user_id) => Ok(AuthUser { user_id }),
                Err(e) => Err(Some(e)),
            },
        }
    }

    /// Checks the bearer token at the current time, keeping why it failed.
    pub fn identify(ctx: &ApiContext, bearer: Option<&str>) -> (r: Result<AuthUser, Option<TokenError>>)
        ensures
            exists|now: int|
                0 <= now <= i64::MAX && r == identified(
                    #[trigger] bearer_check(ctx.token_secret@, bearer_view(bearer), now),
                ),
    {
        let now = now_secs();
        Self::identify_at(ctx, bearer, now)
    }

    /// Mandatory extraction at time `now`: the user that the bearer token
    /// proves, or `Unauthorized` whether the token is missing, malformed,
    /// forged or expired.
    pub fn authenticate_at(ctx: &ApiContext, bearer: Option<&str>, now: u64) -> (r: Result<AuthUser, ApiError>)
        ensures
            r == required_user(bearer_identity(ctx.token_secret@, bearer_view(bearer), now as int)),
    {
        match Self::identify_at(ctx, bearer, now) {
            Ok(user) => Ok(user),
            Err(reason) => Err(refusal(reason)),
        }
    }

    /// Mandatory extraction at the current time.
    pub fn authenticate(ctx: &ApiContext, bearer: Option<&str>) -> (r: Result<AuthUser, ApiError>)
        ensures
            exists|now: int|
                0 <= now <= i64::MAX && r == required_user(
                    #[trigger] bearer_identity(ctx.token_secret@, bearer_view(bearer), now),
                ),
    {
        let now = now_secs();
        Self::authenticate_at(ctx, bearer, now)
    }
}

impl MaybeAuthUser {
    /// The user's identity, if the request carried a valid token.
    pub fn user_id(&self) -> (r: Option<u128>)
        ensures
            r == (match self.0 {
                Some(a) => Some(a.user_id),
                None => None::<u128>,
            }),
    {
        match self.0 {
            Some(a) => Some(a.user_id),
            None => None,
        }
    }

    /// Optional extraction at time `now`: never an error. A missing,
    /// malformed, forged or expired token gives nobody; a user is given
    /// exactly when mandatory extraction would accept the token.
    pub fn authenticate_at(ctx: &ApiContext, bearer: Option<&str>, now: u64) -> (r: MaybeAuthUser)
        ensures
            r == optional_user(bearer_identity(ctx.token_secret@, bearer_view(bearer), now as int)),
            r.0 is Some <==> AuthUser::accepts_at(ctx, bearer, now),
    {
        match AuthUser::authenticate_at(ctx, bearer, now) {
            Ok(user) => MaybeAuthUser(Some(user)),
            Err(_) => MaybeAuthUser(None),
        }
    }

    /// Optional extraction at the current time.
    pub fn authenticate(ctx: &ApiContext, bearer: Option<&str>) -> (r: MaybeAuthUser)
        ensures
            exists|now: int|
                0 <= now <= i64::MAX && r == optional_user(
                    #[trigger] bearer_identity(ctx.token_secret@, bearer_view(bearer), now),
                ),
    {
        let now = now_secs();
        Self::authenticate_at(ctx, bearer, now)
    }
}

impl AuthUser {
    /// Whether mandatory extraction accepts `bearer` at time `now`.
    pub open spec fn accepts_at(ctx: &ApiContext, bearer: Option<&str>, now: u64) -> bool {
        required_user(bearer_identity(ctx.token_secret@, bearer_view(bearer), now as int)) is Ok
    }
}

} // verus!
