use vstd::prelude::*;
use crate::error::{AppError, spec_error_message};

verus! {

/// What `bcrypt::verify(password, hash)` gives: `Some(matches)`, or `None` when
/// bcrypt refuses the hash.
pub uninterp spec fn bcrypt_verify_outcome(password: Seq<char>, hash: Seq<char>) -> Option<bool>;

/// `bcrypt::verify(password, hash)`, its error read as `None`.
/// Claimed: the outcome is `bcrypt_verify_outcome` of the two texts, and a hash
/// that is not exactly 60 ASCII characters is refused (bcrypt checks this first).
#[verifier::external_body]
fn bcrypt_verify(password: &str, hash: &str) -> (r: Option<bool>)
    ensures
        r == bcrypt_verify_outcome(password@, hash@),
        (hash@.len() != 60 || !vstd::utf8::is_ascii_chars(hash@)) ==> r is None,
{
    bcrypt::verify(password, hash).ok()
}

/// `bcrypt::hash(password, bcrypt::DEFAULT_COST)`, its error read as `None`.
/// The salt is random, so the hash is not a function of the password. Claimed:
/// a hash that is produced verifies the password it was made from, and it is
/// 60 ASCII characters starting with `$2b$` (the format bcrypt writes).
#[verifier::external_body]
fn bcrypt_hash(password: &str) -> (r: Option<String>)
    ensures
        r matches Some(h) ==> bcrypt_verify_outcome(password@, h@) == Some(true),
        r matches Some(h) ==> h@.len() == 60 && vstd::utf8::is_ascii_chars(h@) && h@.subrange(0, 4) == "$2b$"@,
{
    bcrypt::hash(password, bcrypt::DEFAULT_COST).ok()
}

/// The answer to a login, given whose login it is, whether the account (with
/// its password hash) was found and what checking the password against the
/// hash gave. An unknown user is `NotFound`, an unknown super administrator
/// `Auth`; both carry the message of a wrong password.
pub open spec fn spec_login(owner: PasswordOwner, found: bool, verified: Option<bool>, r: Result<(), AppError>) -> bool {
    if !found {
        match owner {
            PasswordOwner::User => r matches Err(AppError::NotFound(m)) && m@ == "Invalid username or password"@,
            PasswordOwner::SuperAdmin => r matches Err(AppError::Auth(m)) && m@ == "Invalid username or password"@,
        }
    } else {
        match verified {
            None => r matches Err(AppError::Internal(m)) && m@ == "Password verification failed"@,
            Some(false) => r matches Err(AppError::Auth(m)) && m@ == "Invalid username or password"@,
            Some(true) => r is Ok,
        }
    }
}

/// The answer to a login from its facts: an unknown user gets
/// `NotFound("Invalid username or password")` (an unknown super administrator
/// `Auth` with that message), a wrong password
/// `Auth("Invalid username or password")`, and a hash that cannot be checked
/// `Internal("Password verification failed")`.
pub fn login_decision(owner: PasswordOwner, found: bool, verified: Option<bool>) -> (r: Result<(), AppError>)
    ensures
        spec_login(owner, found, verified, r),
{
    if !found {
        return match owner {
            PasswordOwner::User => Err(AppError::not_found("Invalid username or password")),
            PasswordOwner::SuperAdmin => Err(AppError::auth("Invalid username or password")),
        };
    }
    match verified {
        None => Err(AppError::internal("Password verification failed")),
        Some(false) => Err(AppError::auth("Invalid username or password")),
        Some(true) => Ok(()),
    }
}

/// Checks a login (of a user or of the super administrator) against the
/// stored password hash of the account, if one was found.
pub fn check_login(owner: PasswordOwner, stored_hash: Option<&str>, password: &str) -> (r: Result<(), AppError>)
    ensures
        match stored_hash {
            None => spec_login(owner, false, None, r),
            Some(h) => spec_login(owner, true, bcrypt_verify_outcome(password@, h@), r),
        },
{
    match stored_hash {
        None => login_decision(owner, false, None),
        Some(h) => login_decision(owner, true, bcrypt_verify(password, h)),
    }
}

/// The messages with which a password change is refused.
#[derive(Clone, Copy, Debug, PartialEq, Eq, Structural)]
pub enum PasswordOwner {
    /// A user of a tenant, found by username.
    User,
    /// The super administrator.
    SuperAdmin,
}

pub open spec fn missing_account(owner: PasswordOwner, e: AppError) -> bool {
    match owner {
        PasswordOwner::User => e matches AppError::NotFound(m) && m@ == "User not found"@,
        PasswordOwner::SuperAdmin => e matches AppError::Auth(m) && m@ == "Invalid username or password"@,
    }
}

pub open spec fn unverifiable(owner: PasswordOwner, e: AppError) -> bool {
    match owner {
        PasswordOwner::User => e matches AppError::Internal(m) && m@ == "Error verifying password"@,
        PasswordOwner::SuperAdmin => e matches AppError::Internal(m) && m@ == "Password verification failed"@,
    }
}

pub open spec fn unhashable(owner: PasswordOwner, e: AppError) -> bool {
    match owner {
        PasswordOwner::User => e matches AppError::Internal(m) && m@ == "Error hashing password"@,
        PasswordOwner::SuperAdmin => e matches AppError::Internal(m) && m@ == "Password hashing failed"@,
    }
}

/// The answer to a password change, given whether the account was found, what
/// checking the current password gave, and the hash made of the new one.
pub open spec fn spec_password_change(
    owner: PasswordOwner,
    found: bool,
    verified: Option<bool>,
    new_hash: Option<String>,
    r: Result<String, AppError>,
) -> bool {
    if !found {
        r matches Err(e) && missing_account(owner, e)
    } else {
        match verified {
            None => r matches Err(e) && unverifiable(owner, e),
            Some(false) => r matches Err(AppError::Auth(m)) && m@ == "Invalid current password"@,
            Some(true) => match new_hash {
                None => r matches Err(e) && unhashable(owner, e),
                Some(h) => r matches Ok(s) && s@ == h@,
            },
        }
    }
}

/// The answer to a password change from its facts: the new hash to store, or
/// the refusal.
pub fn password_change_decision(
    owner: PasswordOwner,
    found: bool,
    verified: Option<bool>,
    new_hash: Option<String>,
) -> (r: Result<String, AppError>)
    ensures
        spec_password_change(owner, found, verified, new_hash, r),
{
    if !found {
        return match owner {
            PasswordOwner::User => Err(AppError::not_found("User not found")),
            PasswordOwner::SuperAdmin => Err(AppError::auth("Invalid username or password")),
        };
    }
    match verified {
        None => match owner {
            PasswordOwner::User => Err(AppError::internal("Error verifying password")),
            PasswordOwner::SuperAdmin => Err(AppError::internal("Password verification failed")),
        },
        Some(false) => Err(AppError::auth("Invalid current password")),
        Some(true) => match new_hash {
            None => match owner {
                PasswordOwner::User => Err(AppError::internal("Error hashing password")),
                PasswordOwner::SuperAdmin => Err(AppError::internal("Password hashing failed")),
            },
            Some(h) => Ok(h),
        },
    }
}

/// Changes a password: checks the current password against the stored hash
/// and, when it matches, hashes the new password. Returns the hash to store.
///
/// The refusals: no account (`NotFound("User not found")` for a user,
/// `Auth("Invalid username or password")` for the super administrator), a hash
/// that cannot be checked, a wrong current password
/// (`Auth("Invalid current password")`), and a failure to hash.
pub fn change_password(owner: PasswordOwner, stored_hash: Option<&str>, current: &str, new_password: &str) -> (r:
    Result<String, AppError>)
    ensures
        match stored_hash {
            None => spec_password_change(owner, false, None, None::<String>, r),
            Some(h) => if bcrypt_verify_outcome(current@, h@) == Some(true) {
                r is Ok || (r matches Err(e) && unhashable(owner, e))
            } else {
                spec_password_change(owner, true, bcrypt_verify_outcome(current@, h@), None::<String>, r)
            },
        },
        r matches Ok(s) ==> bcrypt_verify_outcome(new_password@, s@) == Some(true),
        r matches Ok(s) ==> s@.len() == 60 && vstd::utf8::is_ascii_chars(s@) && s@.subrange(0, 4) == "$2b$"@,
{
    match stored_hash {
        None => password_change_decision(owner, false, None, None),
        Some(h) => {
            let verified = bcrypt_verify(current, h);
            match verified {
                Some(true) => password_change_decision(owner, true, verified, bcrypt_hash(new_password)),
                _ => password_change_decision(owner, true, verified, None),
            }
        },
    }
}

/// Hashes the password of a new account; a failure to hash is
/// `Internal("Error hashing password")`. The hash verifies the password.
pub fn hash_new_password(password: &str) -> (r: Result<String, AppError>)
    ensures
        r matches Ok(h) ==> bcrypt_verify_outcome(password@, h@) == Some(true),
        r matches Ok(h) ==> h@.len() == 60 && vstd::utf8::is_ascii_chars(h@) && h@.subrange(0, 4) == "$2b$"@,
        r matches Err(e) ==> e matches AppError::Internal(m) && m@ == "Error hashing password"@,
{
    match bcrypt_hash(password) {
        Some(h) => Ok(h),
        None => Err(AppError::internal("Error hashing password")),
    }
}

/// Law: after a password change, the stored hash lets the new password log in.
pub proof fn law_changed_password_logs_in(new_password: Seq<char>, stored: Seq<char>)
    requires
        bcrypt_verify_outcome(new_password, stored) == Some(true),
    ensures
        forall|owner: PasswordOwner, r: Result<(), AppError>|
            spec_login(owner, true, bcrypt_verify_outcome(new_password, stored), r) <==> r is Ok,
{
}


/// Law: every refusal of a login for want of an account or of the right
/// password carries the same message, "Invalid username or password"; for the
/// super administrator the two refusals are the very same answer.
pub proof fn law_login_refusals_share_their_message(owner: PasswordOwner, r: Result<(), AppError>)
    ensures
        spec_login(owner, false, None, r) ==> (r matches Err(e) && spec_error_message(e)
            == "Invalid username or password"@),
        spec_login(owner, true, Some(false), r) ==> (r matches Err(e) && spec_error_message(e)
            == "Invalid username or password"@),
        owner == PasswordOwner::SuperAdmin ==> (spec_login(owner, false, None, r) <==> spec_login(
            owner,
            true,
            Some(false),
            r,
        )),
{
}

} // verus!
