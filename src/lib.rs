//! Authentication for a small blog API: signed session tokens, identity
//! extraction from bearer tokens, password hashing with Argon2, and the
//! error taxonomy that the API answers with.

pub mod error;
pub mod extractor;
pub mod hex;
pub mod password;
pub mod posts;
pub mod token;
pub mod users;
