//! A verified core for a device hub: the binary wire protocol spoken by
//! controllers, lights, sensors and monitors, the handshake, the per-device
//! decoders and reactions, and the hub's shared state.

pub mod checker;
pub mod connection;
pub mod error;
pub mod handlers;
pub mod hub_actor;
pub mod laws;
pub mod protocol;
