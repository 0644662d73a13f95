//! The decisions of a music bot for chat servers: how a queue of tracks moves,
//! how commands are read, and what text goes back to the channel.

pub mod args;
pub mod commands;
pub mod download;
pub mod enqueue;
pub mod error;
pub mod laws;
pub mod message;
pub mod queue;
pub mod search;
pub mod text;
pub mod track;
