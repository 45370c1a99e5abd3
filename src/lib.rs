//! Short-lived pseudonymous identities paid with Lightning: the order and rental lifecycle,
//! pricing, validation, and provisioning decisions, with their contracts proved.
//!
//! Instants are milliseconds since the Unix epoch. Storage and calls to outside services are
//! left to the caller; each operation here takes what was read and returns what to write.

pub mod admin;
pub mod auth;
pub mod display;
pub mod dns;
pub mod email;
pub mod model;
pub mod nip05;
pub mod orders;
pub mod pricing;
pub mod rentals;
pub mod text;
pub mod validation;
