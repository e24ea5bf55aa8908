//! Session and realtime delivery core of a direct-messaging chat backend:
//! an identity cache, a registry of live connections, token gating,
//! request validation and message dispatch.
pub mod auth_gate;
pub mod dispatcher;
pub mod identity_cache;
pub mod laws;
pub mod login;
pub mod registry;
pub mod types;
pub mod validator;
