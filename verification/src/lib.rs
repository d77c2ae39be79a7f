//! Command layer of a JSON-over-websocket API for a chat client: the command
//! table, the response framing of the wire protocol, the error kinds, and the
//! decisions that turn chat state into the records the client receives.

pub mod account;
pub mod commands;
pub mod connection;
pub mod error;
pub mod event;
pub mod json;
pub mod text;

pub use event::event_to_json;
