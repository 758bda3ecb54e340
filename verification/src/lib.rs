//! A client for a record service that speaks XRPC over HTTP with bearer-token
//! sessions.
//!
//! The library holds the session model, the course of login and token refresh,
//! and the dispatcher that retries a call once when the access token has run
//! out. It sends nothing itself: it says which request is to be sent next and
//! takes what came back.

pub mod client;
pub mod dispatch;
pub mod error;
pub mod login;
pub mod record;
pub mod refresh;
pub mod session;
pub mod storage;
pub mod wire;
