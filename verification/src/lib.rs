//! Supervision of a session with one network camera that many consumers
//! share, together with the media pipeline layouts and the messaging
//! bridge rules that those consumers rely on.
//!
//! The library decides and never waits. A driver owns a
//! [`session::NeoCam`], hands it what happens (commands of handles, reports
//! on handshakes, frames) and carries out what it asks for in return
//! ([`lifecycle::Effects`], [`fanout::FanOutAction`], replies to
//! tickets). Everything that the session promises is stated over its view
//! and proved:
//!
//! - [`cancel`]: the cancellation signal, a tree of tokens.
//! - [`lifecycle`]: the connection lifecycle and its retry policy.
//! - [`hub`]: the broadcast buffer of one track.
//! - [`fanout`]: upstream subscriptions and downstream subscribers.
//! - [`session`]: the supervisor, its command queue and its handles.
//! - [`pipeline`]: the layouts of the media pipelines.
//! - [`bridge`]: what is published about a camera and what it is told.
//! - [`config`]: the records that describe a camera.
pub mod bridge;
pub mod cancel;
pub mod config;
pub mod fanout;
pub mod hub;
pub mod lifecycle;
pub mod pipeline;
pub mod session;
mod text;
