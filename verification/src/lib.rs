//! A verified core for a long-lived gateway client: the Hello/Identify
//! negotiation, the heartbeat writer with its outbound relay channel, and
//! the foreground read loop's state machine.
pub mod client;
pub mod outbound;
pub mod protocol;
pub mod writer;
