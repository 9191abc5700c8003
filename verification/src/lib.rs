//! A bridge that forwards a bounded control pair (a lighting channel and its
//! level) from a real-time audio callback to a remote listener.
//!
//! The crate holds the decisions only: which observations count as a change,
//! how a pair is written on the wire, and what the connection to the listener
//! is asked to do next. Sockets and the plugin host live with the caller, who
//! performs each [`bridge::Action`] and reports its outcome as a
//! [`bridge::Event`].
pub mod pair;
pub mod wire;
pub mod tracker;
pub mod connection;
pub mod bridge;
pub mod laws;
