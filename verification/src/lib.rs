//! A local web-interface toolkit: named handlers are bound to user-interface
//! events, and incoming events are routed to them over two channels, a
//! long-lived duplex connection and a one-shot request channel.
//!
//! The crate holds the event model, the handler table, the dispatch rules and
//! the two channel adapters. Listening on a socket and serving files are left
//! to the program that embeds it.

pub mod config;
pub mod json;
pub mod event;
pub mod codec;
pub mod registry;
pub mod duplex;
pub mod request;
pub mod helpers;

pub use config::WebUIConfig;
pub use event::{UIEvent, UIResponse};
pub use registry::{EventRegistry, WebUI};
