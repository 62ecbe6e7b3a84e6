//! A key-to-hash store spoken to in JSON.
//!
//! A client sends one JSON object per request, either to store the hash of a
//! key or to load it, and gets one JSON object back. This crate holds the
//! store, the wire codec and the decisions of a connection's session; the
//! sockets and the tasks around them are the caller's.

pub mod json;
pub mod protocol;
pub mod session;
pub mod store;
