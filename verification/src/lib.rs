//! A single interactive OAuth2 authorization-code login against the Netatmo
//! API: the URL to open, the one callback that is accepted, the token
//! exchange that follows it, and what is shown at the end.

pub mod authorize;
pub mod callback;
pub mod config;
pub mod exchange;
pub mod listener;
pub mod text;

pub use exchange::Login;
