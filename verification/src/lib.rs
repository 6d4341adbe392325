//! A small, verified core for a single-user OAuth2 (authorization-code +
//! PKCE) client that publishes short text posts to a social platform.
//!
//! The crate holds the logic of the token lifecycle: the session state and
//! its invariant, the decisions taken by the login, callback, publish and
//! logout steps, the framing of the outbound publish request, and the pages
//! rendered for the browser. Network and file I/O stay outside; callers
//! perform the HTTP exchanges and hand the plain results back in.

pub mod config;
pub mod error;
pub mod home;
pub mod laws;
pub mod oauth;
pub mod publish;
pub mod session;
pub mod strutil;
