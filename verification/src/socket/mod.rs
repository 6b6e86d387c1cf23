pub mod builder;
pub mod query;
pub mod events;
pub mod worker;
pub mod ping;
pub mod reconnect;
pub mod handshake;
