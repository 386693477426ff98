//! Google sign-in sessions: the authorization-code login flow, the signed
//! session token it issues, the user directory it keeps, and the check that
//! every protected request goes through.
pub mod auth;
pub mod clock;
pub mod directory;
pub mod errors;
pub mod provider;
pub mod session;
pub mod token;
pub mod upsert;
