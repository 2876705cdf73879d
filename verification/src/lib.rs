//! Core of a chat-bot bridge that polls a messaging API for updates,
//! routes each update through a command grammar to a handler, and renders
//! paginated content pages with inline-button navigation.
//!
//! The update poller, the command grammar, the router and the renderer are
//! verified; network transport and JSON (de)serialization live outside this
//! library and hand it plain values.

pub mod database;
pub mod decimal;
pub mod error;
pub mod handler;
pub mod kitsu;
pub mod parser;
pub mod poller;
pub mod render;
pub mod telegram;
