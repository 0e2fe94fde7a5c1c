//! Authentication and session core of the login service: auth accounts, the login,
//! password-change and password-reset use cases, in-memory stores, session tokens,
//! auth telemetry and the HTTP response mapping.

pub mod text;
pub mod domain;
pub mod app;
pub mod infra;
pub mod http;
