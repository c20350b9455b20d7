//! What the user routes answer, given what the database and the token
//! issuer reported.
//!
//! Each route waits on the database (and, for logging in, on the token
//! issuer); the functions here take what came back and decide the answer.

use vstd::prelude::*;
use vstd::string::*;

use crate::errors::{is_database_error, is_internal_error, AppError};

verus! {

/// The first second that `chrono` can represent: -262143-01-01T00:00:00Z.
pub open spec fn min_timestamp() -> int {
    -8334601228800
}

/// The last second that `chrono` can represent: +262142-12-31T23:59:59Z.
pub open spec fn max_timestamp() -> int {
    8210266876799
}

/// A UNIX timestamp (in seconds) that `chrono` can turn into a date.
pub open spec fn timestamp_in_range(secs: int) -> bool {
    min_timestamp() <= secs <= max_timestamp()
}

/// Whether a UNIX timestamp (seconds) lies in the range that `chrono` can
/// turn into a date: what [`login`] needs of a token's expiry time.
pub fn is_valid_timestamp(secs: i64) -> (res: bool)
    ensures
        res == timestamp_in_range(secs as int),
{
    -8334601228800 <= secs && secs <= 8210266876799
}

/// The RFC 3339 text (whole seconds, `Z` for UTC) of the UTC date and time
/// that a UNIX timestamp stands for, as `chrono` writes it.
pub uninterp spec fn rfc3339_utc_seconds(secs: int) -> Seq<char>;

/// Writes a UNIX timestamp (seconds) as an RFC 3339 date in UTC, through
/// `chrono::DateTime::from_timestamp` and `to_rfc3339_opts(SecondsFormat::Secs, true)`.
///
/// The contract claims that a text comes back exactly when the timestamp lies
/// in `chrono`'s range, and names the text: it is a function of the timestamp.
/// What that text looks like is not stated.
#[verifier::external_body]
fn rfc3339_from_timestamp(secs: i64) -> (res: Option<String>)
    ensures
        res is Some <==> timestamp_in_range(secs as int),
        res matches Some(s) ==> s@ == rfc3339_utc_seconds(secs as int),
{
    match chrono::DateTime::from_timestamp(secs, 0) {
        Some(dt) => Some(dt.to_rfc3339_opts(chrono::SecondsFormat::Secs, true)),
        None => None,
    }
}

/// The user that logs in, as the credential check found it.
#[derive(Debug, Clone, PartialEq, Eq)]
pub struct LoginUser {
    pub id: String,
    pub lastname: String,
    pub firstname: String,
    pub email: String,
}

/// The answer to a successful login.
#[derive(Debug, Clone, PartialEq, Eq)]
pub struct LoginResponse {
    pub id: String,
    pub lastname: String,
    pub firstname: String,
    pub email: String,
    pub token: String,
    pub expires_at: String,
}

/// First step of logging in: the credential check found a user (go on with
/// it), found none (401 Unauthorized), or failed (a database error).
pub fn login_lookup<T>(found: Result<Option<T>, sqlx::Error>) -> (res: Result<T, AppError>)
    ensures
        found is Err ==> (res matches Err(e) && is_database_error(e)),
        found matches Ok(None) ==> res == Err::<T, AppError>(AppError::Unauthorized),
        found matches Ok(Some(u)) ==> res == Ok::<T, AppError>(u),
{
    match found {
        Err(e) => Err(AppError::from_database_error(e)),
        Ok(None) => Err(AppError::Unauthorized),
        Ok(Some(user)) => Ok(user),
    }
}

/// The answer to a successful login: the user, the token issued for it, and
/// the token's expiry time already written out.
pub fn login_response(user: LoginUser, token: String, expires_at: String) -> (res: LoginResponse)
    ensures
        res.id@ == user.id@,
        res.lastname@ == user.lastname@,
        res.firstname@ == user.firstname@,
        res.email@ == user.email@,
        res.token@ == token@,
        res.expires_at@ == expires_at@,
{
    LoginResponse {
        id: user.id,
        lastname: user.lastname,
        firstname: user.firstname,
        email: user.email,
        token,
        expires_at,
    }
}

/// Last step of logging in: with the token issued for `user` (the token and
/// the UNIX time at which it expires) the answer holds the user, the token,
/// and the expiry time in RFC 3339; when no token could be issued the answer
/// is 401 Unauthorized.
pub fn login(user: LoginUser, token: Option<(String, i64)>) -> (res: Result<
    LoginResponse,
    AppError,
>)
    requires
        token matches Some((_, exp)) ==> timestamp_in_range(exp as int),
    ensures
        token is None ==> res == Err::<LoginResponse, AppError>(AppError::Unauthorized),
        token matches Some((t, exp)) ==> (res matches Ok(r) && r.id@ == user.id@ && r.lastname@
            == user.lastname@ && r.firstname@ == user.firstname@ && r.email@ == user.email@
            && r.token@ == t@ && r.expires_at@ == rfc3339_utc_seconds(exp as int)),
{
    match token {
        Some((token, expires)) => {
            let expires_at = match rfc3339_from_timestamp(expires) {
                Some(text) => text,
                None => {
                    return Err(AppError::Unauthorized);
                },
            };
            Ok(login_response(user, token, expires_at))
        },
        None => Err(AppError::Unauthorized),
    }
}

/// Registering: `user` is the new user as the store left it; it is the
/// answer when storing it succeeded; a failure to store it is an internal
/// error "Error during user creation".
pub fn register<T, U>(user: U, created: Result<T, sqlx::Error>) -> (res: Result<U, AppError>)
    ensures
        created is Ok ==> res == Ok::<U, AppError>(user),
        created is Err ==> (res matches Err(e) && is_internal_error(e, "Error during user creation"@)),
{
    match created {
        Ok(_) => Ok(user),
        Err(_) => Err(AppError::InternalError { message: String::from_str("Error during user creation") }),
    }
}

/// Listing the users, one fetch at a time: `next` is what the next fetch from
/// the database returned. A row is added to `users` and the listing goes on
/// (`None`); the end of the rows finishes it (`Some(Ok(()))`: answer
/// `users`); a failure ends it with a database error, `users` unchanged.
pub fn get_all_step<T>(
    users: &mut Vec<T>,
    next: Result<Option<Result<T, sqlx::Error>>, sqlx::Error>,
) -> (res: Option<Result<(), AppError>>)
    ensures
        next matches Ok(Some(Ok(u))) ==> res is None && final(users)@ == old(users)@.push(u),
        next matches Ok(None) ==> res == Some(Ok::<(), AppError>(())) && final(users)@ == old(
            users,
        )@,
        (next is Err || next matches Ok(Some(Err(_)))) ==> (res matches Some(Err(e))
            && is_database_error(e) && final(users)@ == old(users)@),
{
    match next {
        Ok(Some(Ok(user))) => {
            users.push(user);
            None
        },
        Ok(Some(Err(e))) => Some(Err(AppError::from_database_error(e))),
        Ok(None) => Some(Ok(())),
        Err(e) => Some(Err(AppError::from_database_error(e))),
    }
}

/// Showing one user: the user when found, 404 "No user found" when not, a
/// database error when the lookup failed.
pub fn get_by_id<T>(found: Result<Option<T>, sqlx::Error>) -> (res: Result<T, AppError>)
    ensures
        found is Err ==> (res matches Err(e) && is_database_error(e)),
        found matches Ok(None) ==> (res matches Err(e) && e matches AppError::NotFound { message }
            && message@ == "No user found"@),
        found matches Ok(Some(u)) ==> res == Ok::<T, AppError>(u),
{
    match found {
        Err(e) => Err(AppError::from_database_error(e)),
        Ok(None) => Err(AppError::NotFound { message: String::from_str("No user found") }),
        Ok(Some(user)) => Ok(user),
    }
}

/// Deleting a user, given how many rows the deletion affected: exactly one
/// row gives 204 No Content; any other count is the internal error "No user or
/// user already deleted"; a failed deletion is the internal error "Error
/// during user deletion".
pub fn delete(deleted: Result<u64, sqlx::Error>) -> (res: Result<u16, AppError>)
    ensures
        deleted == Ok::<u64, sqlx::Error>(1) ==> res == Ok::<u16, AppError>(204),
        (deleted matches Ok(n) && n != 1) ==> (res matches Err(e) && is_internal_error(
            e,
            "No user or user already deleted"@,
        )),
        deleted is Err ==> (res matches Err(e) && is_internal_error(e, "Error during user deletion"@)),
{
    match deleted {
        Ok(rows) => {
            if rows == 1 {
                Ok(204)
            } else {
                Err(
                    AppError::InternalError {
                        message: String::from_str("No user or user already deleted"),
                    },
                )
            }
        },
        Err(_) => Err(AppError::InternalError { message: String::from_str("Error during user deletion") }),
    }
}

/// First step of updating a user: a failed update is a database error;
/// otherwise the user is read back and answered as [`get_by_id`] answers.
pub fn update<T>(updated: Result<T, sqlx::Error>) -> (res: Result<(), AppError>)
    ensures
        updated is Ok ==> res is Ok,
        updated is Err ==> (res matches Err(e) && is_database_error(e)),
{
    match updated {
        Ok(_) => Ok(()),
        Err(e) => Err(AppError::from_database_error(e)),
    }
}

} // verus!
