//! The user record as stored.

use vstd::prelude::*;

verus! {

/// A date and time without a time zone, from `chrono`. It is only carried.
#[verifier::external_type_specification]
#[verifier::external_body]
pub struct ExNaiveDateTime(chrono::NaiveDateTime);

/// A user as stored.
pub struct User {
    pub id: i32,
    pub email: String,
    pub username: String,
    pub password: String,
    pub role_id: i32,
    pub tanshi: i32,
    pub created_at: chrono::NaiveDateTime,
    pub avatar: String,
}

} // verus!
