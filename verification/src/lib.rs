//! A verified core for a WebSocket RCON command client.
//!
//! The library models the protocol messages, their wire encoding, the
//! connection endpoint, command collection, and the ordered send sequence
//! of a single connection as a state machine.  All network activity is
//! performed by an unverified driver that executes the actions this
//! library hands out.

pub mod commands;
pub mod endpoint;
pub mod message;
pub mod session;
pub mod wire;
