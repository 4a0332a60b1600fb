//! Real-time hub of a group chat and voice service.
//!
//! Clients hold a socket open to the hub. Each connection authenticates with
//! a token, is subscribed to the rooms its user belongs to, and from then on
//! sends frames that the hub turns into publications to those rooms: chat
//! messages, typing notices, voice presence and call-setup signals.
//!
//! - `ws_messages`, `json`, `ids`, `models`, `db`: the wire protocol and the
//!   records it carries.
//! - `ws`: the registry of rooms, one bounded fan-out channel each, and the
//!   table of who listens to which room.
//! - `session`: the state machine of one connection, from the handshake to
//!   the teardown; `hub` applies what a session asks for to the registry and
//!   `relay` says what a connection does with what its rooms publish.
//! - `trace`, `voice`: what is proved of whole runs of a session.
//! - `auth`, `routes`: tokens, passwords and the rules behind the request
//!   handlers.
//!
//! The hub itself neither reads sockets nor touches the store: whoever
//! embeds it performs the effects that a session asks for and hands back
//! what came of them.

pub mod auth;
pub mod db;
pub mod hub;
pub mod ids;
pub mod json;
pub mod models;
pub mod relay;
pub mod routes;
pub mod session;
pub mod text;
pub mod trace;
pub mod voice;
pub mod ws;
pub mod ws_messages;
