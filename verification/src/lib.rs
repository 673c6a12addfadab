//! Authentication core of the RealWorld-style API: request validation, the
//! decisions of every handler as verified state machines, token rotation,
//! and per-client rate limiting.
pub mod status;
pub mod models;
pub mod validation;
pub mod schemas;
pub mod effects;
pub mod token;
pub mod auth;
pub mod rate_limit;
pub mod email;
pub mod world;
pub mod handlers;
