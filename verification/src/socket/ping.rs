use vstd::prelude::*;

use crate::structs::handshake::Handshake;

verus! {

/// The ping interval, in milliseconds, when the server has not said one.
pub const DEFAULT_PING_INTERVAL: u64 = 25000;

/// The ping interval the server asked for in its handshake, or the default.
pub fn ping_interval_of(handshake: Option<&Handshake>) -> (r: u64)
    ensures
        r == match handshake {
            Some(h) => h.ping_interval,
            None => DEFAULT_PING_INTERVAL,
        },
{
    match handshake {
        Some(h) => h.ping_interval,
        None => DEFAULT_PING_INTERVAL,
    }
}

/// What the ping worker does.
#[derive(Debug, Clone, Copy, PartialEq, Eq, Structural)]
pub enum PingAction {
    /// Hand the `ping` listeners a ping packet.
    EmitPing,
    /// Send a ping frame.
    SendPing,
    /// Hand the `pong` listeners a ping packet.
    EmitPong,
    /// Wait this many milliseconds.
    Sleep(u64),
}

/// The action after `last` (none at the start), where `sent` tells whether the last ping frame
/// went out: ping listeners, then the frame; after a frame that went out, pong listeners and a
/// wait of the interval; after one that did not, ping listeners again.
pub open spec fn ping_next(last: Option<PingAction>, sent: bool, interval: u64) -> PingAction {
    match last {
        None => PingAction::EmitPing,
        Some(PingAction::EmitPing) => PingAction::SendPing,
        Some(PingAction::SendPing) => if sent {
            PingAction::EmitPong
        } else {
            PingAction::EmitPing
        },
        Some(PingAction::EmitPong) => PingAction::Sleep(interval),
        Some(PingAction::Sleep(_)) => PingAction::EmitPing,
    }
}

/// The ping worker's cycle: its interval and its last action.
pub struct PingCycle {
    interval: u64,
    last: Option<PingAction>,
}

impl PingCycle {
    pub closed spec fn spec_interval(&self) -> u64 {
        self.interval
    }

    pub closed spec fn spec_last(&self) -> Option<PingAction> {
        self.last
    }

    /// A cycle that pings every `interval` milliseconds.
    pub fn new(interval: u64) -> (r: PingCycle)
        ensures
            r.spec_interval() == interval,
            r.spec_last() is None,
    {
        PingCycle { interval, last: None }
    }

    /// The next action, where `sent` tells whether the last ping frame went out.
    pub fn next(&mut self, sent: bool) -> (r: PingAction)
        ensures
            r == ping_next(old(self).spec_last(), sent, old(self).spec_interval()),
            final(self).spec_last() == Some(r),
            final(self).spec_interval() == old(self).spec_interval(),
    {
        let action = match self.last {
            None => PingAction::EmitPing,
            Some(PingAction::EmitPing) => PingAction::SendPing,
            Some(PingAction::SendPing) => if sent {
                PingAction::EmitPong
            } else {
                PingAction::EmitPing
            },
            Some(PingAction::EmitPong) => PingAction::Sleep(self.interval),
            Some(PingAction::Sleep(_)) => PingAction::EmitPing,
        };
        self.last = Some(action);
        action
    }
}

/// What the ping frame carries: the name of the ping packet type.
pub fn ping_payload() -> (r: &'static str)
    ensures
        r@ == "ping"@,
{
    crate::enums::packet::PacketType::Ping.name()
}

/// The worker waits only right after handing the pong listeners a packet, and does that only
/// right after a ping frame went out.
pub proof fn law_ping_cycle_order(last: Option<PingAction>, sent: bool, interval: u64)
    ensures
        ping_next(last, sent, interval) is Sleep ==> last == Some(PingAction::EmitPong),
        ping_next(last, sent, interval) == PingAction::EmitPong ==> last == Some(
            PingAction::SendPing,
        ) && sent,
        ping_next(last, sent, interval) == PingAction::SendPing ==> last == Some(
            PingAction::EmitPing,
        ),
        ping_next(last, sent, interval) is Sleep ==> ping_next(last, sent, interval)
            == PingAction::Sleep(interval),
{
}

} // verus!
