//! Signaling and message relay for peer-to-peer sessions.
//!
//! The crate holds the decisions of a WebSocket relay server: who is admitted,
//! which room a connection joins, which frames are relayed and to whom, when a
//! connection is cut off, and which TURN credentials are handed out. Sockets,
//! locks and timers stay with the caller; every function here works on plain
//! values and says in its contract what it returns.
//!
//! - [`admission`] decides on upgrade requests and counts sessions.
//! - [`rooms`] places connections in rooms and removes the empty ones.
//! - [`session`] is the life of one connection, from identity to cleanup.
//! - [`message`] checks and rewrites the frames that are relayed.
//! - [`rate`] limits the frames of a session.
//! - [`ice`] issues TURN credentials.
//! - [`ident`] makes identifiers.
//! - [`json`] and [`channel`] say what is taken on trust from `serde_json`
//!   and `tokio`.

pub mod limits;
pub mod admission;
pub mod channel;
pub mod ice;
pub mod ident;
pub mod json;
pub mod message;
pub mod rate;
pub mod rooms;
pub mod session;
