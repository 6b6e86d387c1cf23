use vstd::prelude::*;

verus! {

/// The parameters of an Engine.io session: its id, the transports it may upgrade to, and the
/// ping timeout and interval in milliseconds.
#[derive(Debug, Clone, PartialEq, Eq, Hash, PartialOrd, Ord)]
pub struct Handshake {
    pub sid: Option<String>,
    pub upgrades: Vec<String>,
    pub ping_timeout: u64,
    pub ping_interval: u64,
}

} // verus!
