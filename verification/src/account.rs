//! The commands that work on an open chat account, and the records they
//! answer with.

pub mod util;
pub mod message;
pub mod account;
pub mod chat;
pub mod chatlistitem;
