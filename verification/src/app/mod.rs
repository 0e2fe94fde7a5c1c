//! Application layer: use cases and the ports they depend on.

pub mod login;
pub mod player_login;
pub mod ports;
