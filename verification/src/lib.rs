//! Control-plane session handling for a live-video ingest server.
//!
//! A broadcaster connects, answers a challenge, names its stream, negotiates
//! audio and video attributes, is told which UDP port to send media to, and
//! eventually disconnects. Each connection is served by two cooperating
//! tasks: one that owns the socket and one that owns the session state. This
//! crate holds the decisions of both as state machines that take an event
//! and answer with the next action; the caller performs the action and hands
//! back the outcome.

pub mod challenge;
pub mod command;
pub mod connection;
pub mod coordinator;
pub mod dispatcher;
pub mod frame;
pub mod lockstep;
pub mod session;
pub mod state;
pub mod text;
