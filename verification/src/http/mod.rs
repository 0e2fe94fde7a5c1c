//! HTTP boundary: request and response bodies, and how each route answers.

pub mod dto;
pub mod routes;
