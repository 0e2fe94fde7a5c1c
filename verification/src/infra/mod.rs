//! Infrastructure adapters: in-memory stores, compliance, observability and session tokens.

pub mod in_memory_auth_account_repo;
pub mod in_memory_player_repo;
pub mod in_memory_session_store;
pub mod mock_compliance;
pub mod noop_observability;
pub mod session_claims;
pub mod telemetry_observability;
