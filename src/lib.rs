//! User accounts: registration, login and logout, profiles, soft deletion
//! and token-based session checks, over an in-memory record store.

pub mod errors;
pub mod laws;
pub mod models;
pub mod services;
pub mod token;
