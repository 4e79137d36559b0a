//! Verified client library for a live-broadcast chat protocol: a
//! length-prefixed binary packet codec, zlib payload decompression, a typed
//! JSON event dispatcher, and the pure decision logic of the session
//! orchestrator (server failover, connection state, heartbeat cadence).
//! Network, terminal and file I/O live outside the library.

pub mod api;
pub mod client;
pub mod codec;
pub mod compress;
pub mod config;
pub mod credential;
pub mod dispatch;
pub mod json;
pub mod message;
pub mod room;
pub mod text;
pub mod time;
pub mod ui_state;
