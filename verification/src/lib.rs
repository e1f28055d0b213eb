//! The core of a terminal coding assistant: the conversation with a
//! chat-completion provider, the catalog of tools that the model may call
//! and what each of them decides, the life of a tool call on the event bus,
//! the session that keeps the transcript, and the state of the display
//! with what keys and events do to it.
//!
//! The library decides and computes; it neither reads the disk, nor runs
//! processes, nor talks to the network. Whoever uses it hands in what the
//! world gave and performs what comes back.

pub mod agent;
pub mod chats;
pub mod display;
pub mod events;
pub mod handlers;
pub mod json;
pub mod layout;
pub mod ordered;
pub mod session;
pub mod state;
pub mod text;
pub mod tools;
