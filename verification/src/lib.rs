//! Mirrors the messages of one chat into another, once per source message.
//!
//! The crate holds the decisions of the mirroring run: how a message is
//! tagged, how its text and its media file are named, and the state machines
//! that say which step comes next. The caller performs each step against the
//! messaging service and reports what came back.

pub mod auth;
pub mod chats;
pub mod client;
pub mod config;
pub mod forward;
pub mod media;
pub mod message;
pub mod pipeline;
pub mod text;
pub mod transfer;
