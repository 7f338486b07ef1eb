//! Access-control and data-custody core of a classroom assistant backend.
//!
//! The crate authenticates users from locally hashed credentials, manages
//! groups with privileged memberships, and keeps per-user encrypted
//! key-value blobs. Every function in it is verified against a contract
//! stated over the mathematical model of the store in [`db::Store`].

pub mod result;
pub mod auth_hash;
pub mod encoding;
pub mod table;
pub mod text;
pub mod perm;
pub mod db;
pub mod site_config;
pub mod identity;
pub mod group;
pub mod app_api;
pub mod http_api;
pub mod console;
pub mod laws;
