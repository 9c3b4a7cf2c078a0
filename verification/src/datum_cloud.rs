//! Datum Cloud: tokens, sessions and the projects of a user.
pub mod client;
pub mod helper;
pub mod jwt;
pub mod refresh;
pub mod session;
pub mod token_laws;
