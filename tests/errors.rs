use posts_axum::error::{found, on_constraint, on_username_taken, ApiError, StoreFailure};
use posts_axum::posts::{check_post_owner, delete_outcome};

fn taken(name: &str) -> StoreFailure {
    StoreFailure::UniqueViolation { constraint: name.to_string() }
}

#[test]
fn status_codes() {
    assert_eq!(ApiError::Unauthorized.status_code(), 401);
    assert_eq!(ApiError::Forbidden.status_code(), 403);
    assert_eq!(ApiError::NotFound.status_code(), 404);
    assert_eq!(ApiError::unprocessable_entity("username", "username taken").status_code(), 422);
    assert_eq!(ApiError::Internal { detail: "x".to_string() }.status_code(), 500);
}

#[test]
fn duplicate_username_is_field_error() {
    let r: Result<u128, ApiError> = on_username_taken(Err(taken("user_username_key")));
    match r {
        Err(ApiError::UnprocessableEntity { field, messages }) => {
            assert_eq!(field, "username");
            assert_eq!(messages, vec!["username taken".to_string()]);
        }
        _ => panic!("expected a validation error"),
    }
}

#[test]
fn other_constraint_is_internal() {
    let r: Result<u128, ApiError> = on_username_taken(Err(taken("post_pkey")));
    assert!(matches!(r, Err(ApiError::Internal { .. })));
    let r: Result<u128, ApiError> =
        on_username_taken(Err(StoreFailure::Other { detail: "connection reset".to_string() }));
    assert!(matches!(r, Err(ApiError::Internal { .. })));
}

#[test]
fn constraint_match_is_exact() {
    let r: Result<(), ApiError> = on_constraint(Err(taken("user_username_key2")), "user_username_key", "username", "username taken");
    assert!(matches!(r, Err(ApiError::Internal { .. })));
    let r: Result<u8, ApiError> = on_constraint(Ok(5), "k", "f", "m");
    assert!(matches!(r, Ok(5)));
    let r: Result<(), ApiError> = on_constraint(Err(taken("k")), "k", "f", "m");
    match r {
        Err(ApiError::UnprocessableEntity { field, messages }) => {
            assert_eq!(field, "f");
            assert_eq!(messages, vec!["m".to_string()]);
        }
        _ => panic!("expected a validation error"),
    }
}

#[test]
fn missing_lookup_is_not_found() {
    assert!(matches!(found::<i64>(None), Err(ApiError::NotFound)));
    assert!(matches!(found(Some(3i64)), Ok(3)));
}

#[test]
fn delete_forbidden_versus_not_found() {
    assert!(matches!(delete_outcome(true, true), Ok(())));
    assert!(matches!(delete_outcome(false, true), Err(ApiError::Forbidden)));
    assert!(matches!(delete_outcome(false, false), Err(ApiError::NotFound)));
}

#[test]
fn update_forbidden_versus_not_found() {
    assert!(matches!(check_post_owner(Some(1), 1), Ok(())));
    assert!(matches!(check_post_owner(Some(2), 1), Err(ApiError::Forbidden)));
    assert!(matches!(check_post_owner(None, 1), Err(ApiError::NotFound)));
}
