pub mod connection;
pub mod packet;
pub mod protocol;
