use vstd::prelude::*;

verus! {

/// How a socket reconnects: whether it may, how many attempts it makes (no limit when
/// `None`), the delay between attempts in milliseconds, the request it connects with, whether
/// it shakes hands again, and its proxy settings.
#[derive(Clone)]
pub struct ReconnectConfiguration<R> {
    pub enable_reconnect: bool,
    pub reconnect_count: Option<u64>,
    pub reconnect_delay: u64,
    pub request: R,
    pub force_handshake: bool,
    pub ignore_invalid_proxy: bool,
    pub ignore_proxy_env_vars: bool,
    pub proxy: Option<String>,
}

} // verus!
