pub mod handshake;
pub mod message;
pub mod reconnect;
