//! A relay between a game server and a bot that speak a tagged JSON protocol:
//! the wire codec, the routing table that answers or forwards each message,
//! and the fair receive step that feeds it from two inbound channels.
pub mod json;
pub mod message;
pub mod channel;
pub mod handler;
pub mod client;
