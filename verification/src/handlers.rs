//! The handlers of the API, each a state machine over `Effect` and `Outcome`.
pub mod refresh;
pub mod account;
pub mod registration;
pub mod session;
pub mod password;
