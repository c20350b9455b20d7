//! A small web service: users log in with a password, get a bearer token, and
//! use it to reach the user routes. This library holds what the service
//! decides; serving HTTP, the database and the token format stand outside it.

use vstd::prelude::*;

pub mod errors;
pub mod handlers;
pub mod middlewares;
pub mod model;

verus! {

/// Shared settings that every request handler can read.
#[derive(Debug, Clone)]
pub struct AppState {
    pub jwt_secret_key: String,
    pub jwt_lifetime: i64,
}

} // verus!
