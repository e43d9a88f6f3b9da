use vstd::prelude::*;
use crate::error::AppError;

verus! {

/// A change to a user (its profile, or switching it on or off) must find the
/// user: `NotFound("User not found")` when no row was changed.
pub fn check_user_changed(rows_affected: u64) -> (r: Result<(), AppError>)
    ensures
        rows_affected == 0 ==> (r matches Err(AppError::NotFound(m)) && m@ == "User not found"@),
        rows_affected != 0 ==> r is Ok,
{
    if rows_affected == 0 {
        Err(AppError::not_found("User not found"))
    } else {
        Ok(())
    }
}

/// Deleting a user: an unknown username is `NotFound("User not found")`, a
/// user that is already deleted is `Conflict("User already deleted")`.
pub fn user_deletion(exists: bool, already_deleted: bool) -> (r: Result<(), AppError>)
    ensures
        !exists ==> (r matches Err(AppError::NotFound(m)) && m@ == "User not found"@),
        exists && already_deleted ==> (r matches Err(AppError::Conflict(m)) && m@ == "User already deleted"@),
        exists && !already_deleted ==> r is Ok,
{
    if !exists {
        Err(AppError::not_found("User not found"))
    } else if already_deleted {
        Err(AppError::conflict("User already deleted"))
    } else {
        Ok(())
    }
}

/// The profile of the signed-in user, or `NotFound("Profile not found")`.
pub fn profile_found<P>(profile: Option<P>) -> (r: Result<P, AppError>)
    ensures
        match profile {
            Some(p) => r matches Ok(q) && q == p,
            None => r matches Err(AppError::NotFound(m)) && m@ == "Profile not found"@,
        },
{
    match profile {
        Some(p) => Ok(p),
        None => Err(AppError::not_found("Profile not found")),
    }
}

/// The id of the market a request names, or `NotFound("Market not found")`.
pub fn market_found(market_id: Option<i32>) -> (r: Result<i32, AppError>)
    ensures
        match market_id {
            Some(id) => r == Ok::<i32, AppError>(id),
            None => r matches Err(AppError::NotFound(m)) && m@ == "Market not found"@,
        },
{
    match market_id {
        Some(id) => Ok(id),
        None => Err(AppError::not_found("Market not found")),
    }
}

} // verus!
