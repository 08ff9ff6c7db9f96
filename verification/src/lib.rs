//! Token issuance behind an API gateway: the identity assertion of a caller
//! is parsed, the caller's directory profile is normalised, and a session
//! record keyed by a fresh token is prepared for the session store.
//!
//! The library decides and computes; it performs no I/O. A request is driven
//! through [`handler::step`]: the caller performs each [`handler::Action`]
//! and hands the result back as the next [`handler::Event`].

pub mod arn;
pub mod attributes;
pub mod directory;
pub mod document;
pub mod error;
pub mod handler;
pub mod identity;
pub mod notify;
pub mod pattern;
pub mod profile;
pub mod provider;
pub mod session;
pub mod store;
pub mod text;
pub mod token;
