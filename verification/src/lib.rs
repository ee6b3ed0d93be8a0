//! Resilient consumption of a paginated, server-streamed chat feed.
//!
//! The crate holds the decisions of a long-lived stream client: the cursor and
//! its recovery from an append-only log, the connection state machine that
//! reconnects with pagination continuity, and the rules of the credential
//! flow. Every function carries a contract that Verus proves; the network, the
//! file system and the clock stay with the caller, which performs the actions
//! that the state machine hands out and reports back what happened.

pub mod auth_flow;
pub mod cancel;
pub mod cursor;
pub mod delivery;
pub mod json;
pub mod manager;
pub mod oauth;
pub mod pkce;
pub mod resolver;
pub mod resume_log;
pub mod startup;
pub mod text;
pub mod transport;
