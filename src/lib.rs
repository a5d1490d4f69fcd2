//! Authentication and authorization core of the account service: password
//! hashing, session credentials (signed tokens or opaque session blobs), the
//! request guard, and the access-control decisions taken by handlers.
pub mod access;
pub mod errors;
pub mod hasher;
pub mod middleware;
pub mod models;
pub mod number;
pub mod session;
pub mod text;
pub mod token;
