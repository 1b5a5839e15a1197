//! Identity and session subsystem of a storefront backend: password and
//! third-party authentication over an identity store, signed session tokens,
//! and a time-bounded password-recovery flow.

pub mod errors;
pub mod password;
pub mod jwt;
pub mod store;
pub mod auth;
pub mod reset;
