use posts_axum::error::ApiError;
use posts_axum::extractor::{now_secs, refusal, secs_of, ApiContext, AuthUser, MaybeAuthUser};
use posts_axum::token::TokenError;
use posts_axum::token::{issue_token, SESSION_LENGTH_SECS};

fn ctx() -> ApiContext {
    ApiContext { token_secret: "process-secret".to_string() }
}

#[test]
fn mandatory_accepts_valid_token() {
    let c = ctx();
    let token = issue_token(&c.token_secret, 7, 1000);
    assert_eq!(AuthUser::authenticate_at(&c, Some(&token), 1000).unwrap(), AuthUser { user_id: 7 });
}

#[test]
fn mandatory_rejects_missing_malformed_expired_forged() {
    let c = ctx();
    let token = issue_token(&c.token_secret, 7, 1000);
    let forged = issue_token("other", 7, 1000);
    let cases: [(Option<&str>, u64); 4] = [
        (None, 1000),
        (Some("not a token"), 1000),
        (Some(&token), 1000 + SESSION_LENGTH_SECS),
        (Some(&forged), 1000),
    ];
    for (bearer, now) in cases {
        assert!(matches!(AuthUser::authenticate_at(&c, bearer, now), Err(ApiError::Unauthorized)));
    }
}

#[test]
fn optional_yields_anonymous_on_any_failure() {
    let c = ctx();
    let token = issue_token(&c.token_secret, 7, 1000);
    assert_eq!(MaybeAuthUser::authenticate_at(&c, None, 1000), MaybeAuthUser(None));
    assert_eq!(MaybeAuthUser::authenticate_at(&c, Some("garbage"), 1000), MaybeAuthUser(None));
    assert_eq!(
        MaybeAuthUser::authenticate_at(&c, Some(&token), 1000 + SESSION_LENGTH_SECS + 5),
        MaybeAuthUser(None)
    );
    let m = MaybeAuthUser::authenticate_at(&c, Some(&token), 2000);
    assert_eq!(m.user_id(), Some(7));
}

#[test]
fn to_token_and_from_token_round_trip_now() {
    let c = ctx();
    let token = AuthUser { user_id: 99 }.to_token(&c);
    assert_eq!(AuthUser::from_token(&c, &token).unwrap().user_id, 99);
    assert_eq!(AuthUser::authenticate(&c, Some(&token)).unwrap().user_id, 99);
    assert_eq!(MaybeAuthUser::authenticate(&c, Some(&token)).user_id(), Some(99));
    assert!(AuthUser::from_token(&ctx_other(), &token).is_err());
}

fn ctx_other() -> ApiContext {
    ApiContext { token_secret: "different".to_string() }
}

#[test]
fn clock_reads_a_plausible_time() {
    let now = now_secs();
    assert!(now > 1_600_000_000);
    let token = AuthUser { user_id: 1 }.to_token(&ctx());
    assert_eq!(AuthUser::authenticate_at(&ctx(), Some(&token), now + SESSION_LENGTH_SECS + 100).is_err(), true);
}

#[test]
fn clock_reading_before_epoch_is_epoch() {
    assert_eq!(secs_of(-5), 0);
    assert_eq!(secs_of(0), 0);
    assert_eq!(secs_of(1_700_000_000), 1_700_000_000);
    assert_eq!(secs_of(i64::MAX), i64::MAX as u64);
}

#[test]
fn identify_keeps_the_reason() {
    let c = ctx();
    let token = issue_token(&c.token_secret, 7, 1000);
    let forged = issue_token("other", 7, 1000);
    assert_eq!(AuthUser::identify_at(&c, None, 1000), Err(None));
    assert_eq!(AuthUser::identify_at(&c, Some("junk"), 1000), Err(Some(TokenError::Malformed)));
    assert_eq!(AuthUser::identify_at(&c, Some(&forged), 1000), Err(Some(TokenError::BadSignature)));
    assert_eq!(
        AuthUser::identify_at(&c, Some(&token), 1000 + SESSION_LENGTH_SECS),
        Err(Some(TokenError::Expired))
    );
    assert_eq!(AuthUser::identify_at(&c, Some(&token), 1000), Ok(AuthUser { user_id: 7 }));
    assert_eq!(AuthUser::identify(&c, Some("junk")), Err(Some(TokenError::Malformed)));
    for reason in [None, Some(TokenError::Malformed), Some(TokenError::BadSignature), Some(TokenError::Expired)] {
        assert!(matches!(refusal(reason), ApiError::Unauthorized));
    }
}
