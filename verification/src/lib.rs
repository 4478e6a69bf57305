//! Signaling and relay hub for one-sender, many-receiver audio streams.
//!
//! The crate holds the decisions of the hub: the message vocabulary, the
//! registry of live connections and streams, the per-connection signaling
//! controller, the relay loop's decisions and connection teardown. Transport
//! sessions and media tracks are referred to by numeric handles; the
//! surrounding program owns the objects behind them.

pub mod messages;
pub mod state;
pub mod store;
pub mod lifecycle;
pub mod relay;
pub mod signaling;
