//! What the request handlers decide.

pub mod errors;
pub mod users;
