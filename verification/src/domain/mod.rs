//! Domain types used by the use cases.

pub mod auth_account;
pub mod player;
