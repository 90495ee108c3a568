//! A multi-user chat relay: a bounded broadcast hub, the per-connection
//! relay state machine, and the client-session state machine, with the wire
//! texts they exchange.
pub mod message;
pub mod hub;
pub mod handler;
pub mod client;
