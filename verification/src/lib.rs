//! A credential-bearing reverse proxy's core: it holds OAuth2 tokens in
//! sealed browser cookies so the upstream API's credentials never reach
//! the client, exchanges an authorization code for a token pair, refreshes
//! an expired access token transparently mid-request, and forwards calls
//! to the one fixed upstream while relaying status and body verbatim.
//!
//! Everything here is the pure decision core: each function is one step of
//! the per-request state machine (resolve auth → refresh if needed →
//! forward → respond), between the at most two outbound network calls.
//! The web layer around it performs the calls and the cookie sealing and
//! hands every result back in as a plain value.

pub mod error;
pub mod laws;
pub mod proxy;
pub mod session;
pub mod timetable;
pub mod token;
