//! Typed client binding for a remote torrent-client's HTTP control API.
//!
//! The crate models the session/request/response pipeline: a [`client::Client`]
//! holds the base URL and the current session cookie; each remote operation has
//! a request builder that fixes the exact wire encoding of its arguments, and a
//! response interpreter that maps HTTP status codes to typed results. The
//! network transport itself lives outside this crate; callers hand status
//! codes, headers and bodies to the interpreters as plain values.

pub mod app;
pub mod auth;
pub mod client;
pub mod error;
pub mod json;
pub mod log;
pub mod request;
pub mod response;
pub mod sync;
pub mod text;
pub mod torrents;
pub mod transfer;

pub use crate::client::Client;
pub use crate::error::Error;

