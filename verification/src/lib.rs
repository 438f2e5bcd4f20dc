//! Credential management: registering users, checking logins and rotating
//! passwords against a persisted store, with salted memory-hard password
//! hashes and a login path that does the same amount of work whether or not
//! the account exists.

pub mod auth;
pub mod db;
pub mod error;
pub mod hashing;
pub mod menu;
pub mod policy;
pub mod store_model;
pub mod text;
