//! Passwordless magic-link authentication: one-time verification codes,
//! an atomic redeem-once store, and session claims with a fixed lifetime.
pub mod clock;
pub mod code;
pub mod error;
pub mod flow;
pub mod model;
pub mod store;
