//! Credential and session lifecycle core of a practice-management backend:
//! password and token handling, the session state machine, impersonation and
//! the resolution of a bearer credential into an authenticated principal.

pub mod error;
pub mod roles;
pub mod validation;
pub mod codec;
pub mod credentials;
pub mod bearer;
pub mod model;
pub mod store;
pub mod laws;
