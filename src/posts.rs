use vstd::prelude::*;

use crate::error::ApiError;

verus! {

/// The answer to a deletion that removed the post only if the caller owned it:
/// a post that exists but was not removed is `Forbidden`, one that never
/// existed `NotFound`.
pub fn delete_outcome(deleted: bool, existed: bool) -> (r: Result<(), ApiError>)
    ensures
        deleted ==> r is Ok,
        !deleted && existed ==> r == Err::<(), ApiError>(ApiError::Forbidden),
        !deleted && !existed ==> r == Err::<(), ApiError>(ApiError::NotFound),
{
    if deleted {
        Ok(())
    } else if existed {
        Err(ApiError::Forbidden)
    } else {
        Err(ApiError::NotFound)
    }
}

/// Whether `caller` may change the post whose owner the store reported:
/// `NotFound` when there is no such post, `Forbidden` when another user owns it.
pub fn check_post_owner(owner: Option<u128>, caller: u128) -> (r: Result<(), ApiError>)
    ensures
        owner is None ==> r == Err::<(), ApiError>(ApiError::NotFound),
        owner matches Some(o) && o != caller ==> r == Err::<(), ApiError>(ApiError::Forbidden),
        owner == Some(caller) ==> r is Ok,
{
    match owner {
        None => Err(ApiError::NotFound),
        Some(o) => {
            if o == caller {
                Ok(())
            } else {
                Err(ApiError::Forbidden)
            }
        },
    }
}

} // verus!
