use vstd::prelude::*;

use crate::structs::reconnect::ReconnectConfiguration;

verus! {

/// Why a socket does not reconnect.
#[derive(Debug, Clone, Copy, PartialEq, Eq, Structural)]
pub enum ReconnectError {
    /// It has no reconnect configuration.
    NotConfigured,
    /// Its configuration does not allow reconnecting.
    Disabled,
    /// Reconnecting failed.
    Failed,
}

/// Whether a socket with this configuration may reconnect.
pub fn reconnect_check<R>(configuration: Option<&ReconnectConfiguration<R>>) -> (r: Result<
    (),
    ReconnectError,
>)
    ensures
        match configuration {
            None => r == Err::<(), ReconnectError>(ReconnectError::NotConfigured),
            Some(c) => if c.enable_reconnect {
                r is Ok
            } else {
                r == Err::<(), ReconnectError>(ReconnectError::Disabled)
            },
        },
{
    match configuration {
        None => Err(ReconnectError::NotConfigured),
        Some(c) => {
            if c.enable_reconnect {
                Ok(())
            } else {
                Err(ReconnectError::Disabled)
            }
        },
    }
}

/// The next step of a reconnect loop.
#[derive(Debug, Clone, Copy, PartialEq, Eq, Structural)]
pub enum AttemptStep {
    /// Stop trying.
    GiveUp,
    /// Try to connect, after waiting `wait` milliseconds when there is a wait.
    Attempt { wait: Option<u64> },
}

/// The attempts of a reconnect loop: the most it may make (no limit when `None`), the delay
/// between them and how many it made.
pub struct ReconnectAttempts {
    limit: Option<u64>,
    delay: u64,
    made: u64,
}

/// The step after `made` attempts: with a limit, stop at the limit and wait the delay before
/// each attempt but the first; without one, attempt again at once.
pub open spec fn attempt_step(limit: Option<u64>, delay: u64, made: u64) -> AttemptStep {
    match limit {
        Some(l) => if made >= l {
            AttemptStep::GiveUp
        } else if made > 0 {
            AttemptStep::Attempt { wait: Some(delay) }
        } else {
            AttemptStep::Attempt { wait: None }
        },
        None => AttemptStep::Attempt { wait: None },
    }
}

impl ReconnectAttempts {
    pub closed spec fn spec_limit(&self) -> Option<u64> {
        self.limit
    }

    pub closed spec fn spec_delay(&self) -> u64 {
        self.delay
    }

    pub closed spec fn spec_made(&self) -> u64 {
        self.made
    }

    /// The attempts never pass the limit.
    #[verifier::type_invariant]
    spec fn inv(&self) -> bool {
        self.limit matches Some(l) ==> self.made <= l
    }

    /// A loop that may make `limit` attempts, `delay` milliseconds apart.
    pub fn new(limit: Option<u64>, delay: u64) -> (r: ReconnectAttempts)
        ensures
            r.spec_limit() == limit,
            r.spec_delay() == delay,
            r.spec_made() == 0,
    {
        ReconnectAttempts { limit, delay, made: 0 }
    }

    /// The loop of a configuration.
    pub fn of_configuration<R>(configuration: &ReconnectConfiguration<R>) -> (r: ReconnectAttempts)
        ensures
            r.spec_limit() == configuration.reconnect_count,
            r.spec_delay() == configuration.reconnect_delay,
            r.spec_made() == 0,
    {
        Self::new(configuration.reconnect_count, configuration.reconnect_delay)
    }

    /// The next step; an attempt counts as made. Without a limit the count is not read, and it
    /// stops growing at its largest value.
    pub fn next(&mut self) -> (r: AttemptStep)
        ensures
            final(self).spec_limit() matches Some(l) ==> final(self).spec_made() <= l,
            r == attempt_step(old(self).spec_limit(), old(self).spec_delay(), old(self).spec_made()),
            final(self).spec_limit() == old(self).spec_limit(),
            final(self).spec_delay() == old(self).spec_delay(),
            old(self).spec_limit() is Some ==> final(self).spec_made() == if r is Attempt {
                old(self).spec_made() + 1
            } else {
                old(self).spec_made() as int
            },
    {
        proof {
            use_type_invariant(&*self);
        }
        match self.limit {
            Some(l) => {
                if self.made >= l {
                    AttemptStep::GiveUp
                } else {
                    let wait = if self.made > 0 {
                        Some(self.delay)
                    } else {
                        None
                    };
                    self.made = self.made + 1;
                    AttemptStep::Attempt { wait }
                }
            },
            None => {
                if self.made < u64::MAX {
                    self.made = self.made + 1;
                }
                AttemptStep::Attempt { wait: None }
            },
        }
    }
}

/// With a limit, a loop makes attempts until it has made the limit and then gives up.
pub proof fn law_attempts_bounded(limit: u64, delay: u64, made: u64)
    requires
        made <= limit,
    ensures
        attempt_step(Some(limit), delay, made) is GiveUp <==> made == limit,
        made > 0 && made < limit ==> attempt_step(Some(limit), delay, made) == (AttemptStep::Attempt {
            wait: Some(delay),
        }),
{
}

/// Without a limit, a loop never gives up and never waits between attempts.
pub proof fn law_attempts_unbounded(delay: u64, made: u64)
    ensures
        attempt_step(None, delay, made) == (AttemptStep::Attempt { wait: None }),
{
}

/// How a ping worker starts again after reconnecting.
#[derive(Debug, Clone, Copy, PartialEq, Eq, Structural)]
pub enum PingRestart {
    /// It does not.
    Skip,
    /// After `delay` milliseconds, with the given interval.
    Start { delay: u64, interval: u64 },
    /// After `delay` milliseconds the restart finds no slot for the worker's handle and fails.
    MissingHandle { delay: u64 },
}

/// What a socket does once its connection is replaced.
#[derive(Debug, Clone, Copy, PartialEq, Eq, Structural)]
pub struct ReconnectFollowups {
    /// Start the listener worker again.
    pub restart_listener_worker: bool,
    /// Hand the `socket:reconnect` listeners an event packet.
    pub emit_socket_reconnect: bool,
    /// How the ping worker starts again.
    pub ping_worker: PingRestart,
}

/// The wait before a ping worker starts again after reconnecting, in milliseconds.
pub const PING_RESTART_DELAY: u64 = 5000;

/// The ping interval used when none is given.
pub const DEFAULT_RESTART_PING_INTERVAL: u64 = 25000;

/// What follows a replaced connection: nothing without listeners; with them, the listener
/// worker again when there is a slot for its handle, the `socket:reconnect` event, and unless
/// told not to, a ping worker five seconds later.
pub fn reconnect_followups(
    has_listeners: bool,
    has_worker_handle: bool,
    has_ping_worker_handle: bool,
    ignore_ping_worker: bool,
    ping_interval: Option<u64>,
) -> (r: ReconnectFollowups)
    ensures
        r.restart_listener_worker == (has_listeners && has_worker_handle),
        r.emit_socket_reconnect == has_listeners,
        r.ping_worker == if !has_listeners || ignore_ping_worker {
            PingRestart::Skip
        } else if has_ping_worker_handle {
            PingRestart::Start {
                delay: PING_RESTART_DELAY,
                interval: match ping_interval {
                    Some(i) => i,
                    None => DEFAULT_RESTART_PING_INTERVAL,
                },
            }
        } else {
            PingRestart::MissingHandle { delay: PING_RESTART_DELAY }
        },
{
    let ping_worker = if !has_listeners || ignore_ping_worker {
        PingRestart::Skip
    } else if has_ping_worker_handle {
        PingRestart::Start {
            delay: PING_RESTART_DELAY,
            interval: match ping_interval {
                Some(i) => i,
                None => DEFAULT_RESTART_PING_INTERVAL,
            },
        }
    } else {
        PingRestart::MissingHandle { delay: PING_RESTART_DELAY }
    };
    ReconnectFollowups {
        restart_listener_worker: has_listeners && has_worker_handle,
        emit_socket_reconnect: has_listeners,
        ping_worker,
    }
}

/// A step of reconnecting a socket.
#[derive(Debug, Clone, Copy, PartialEq, Eq, Structural)]
pub enum ReconnectAction {
    /// Stop the listener worker.
    StopListenerWorker,
    /// Replace the connection; it fails the reconnect when it reports failure.
    ReplaceConnection,
    /// Hand the `socket:connect` listeners an event packet.
    EmitSocketConnect,
    /// Stop the ping worker.
    StopPingWorker,
    /// Shake hands with the server.
    Handshake,
    /// Start the ping worker.
    StartPingWorker,
    /// Start the listener worker.
    Run,
    /// Hand the `reconnect` listeners an event packet.
    EmitReconnect,
}

/// The steps of reconnecting: stop listening, replace the connection, announce it, shake hands
/// again when the configuration says so, listen again, and hand the `reconnect` listeners an
/// event packet twice.
pub open spec fn reconnect_steps(force_handshake: bool) -> Seq<ReconnectAction> {
    seq![ReconnectAction::StopListenerWorker, ReconnectAction::ReplaceConnection, ReconnectAction::EmitSocketConnect]
        + if force_handshake {
        seq![ReconnectAction::StopPingWorker, ReconnectAction::Handshake, ReconnectAction::StartPingWorker]
    } else {
        seq![]
    } + seq![ReconnectAction::Run, ReconnectAction::EmitReconnect, ReconnectAction::EmitReconnect]
}

/// The steps of reconnecting a socket with this configuration, or why it does not reconnect.
pub fn reconnect_plan<R>(configuration: Option<&ReconnectConfiguration<R>>) -> (r: Result<
    Vec<ReconnectAction>,
    ReconnectError,
>)
    ensures
        match configuration {
            None => r == Err::<Vec<ReconnectAction>, ReconnectError>(ReconnectError::NotConfigured),
            Some(c) => if c.enable_reconnect {
                r matches Ok(steps) && steps@ == reconnect_steps(c.force_handshake)
            } else {
                r == Err::<Vec<ReconnectAction>, ReconnectError>(ReconnectError::Disabled)
            },
        },
{
    match reconnect_check(configuration) {
        Err(e) => Err(e),
        Ok(()) => {
            let c = configuration.unwrap();
            let mut steps: Vec<ReconnectAction> = Vec::new();
            steps.push(ReconnectAction::StopListenerWorker);
            steps.push(ReconnectAction::ReplaceConnection);
            steps.push(ReconnectAction::EmitSocketConnect);
            if c.force_handshake {
                steps.push(ReconnectAction::StopPingWorker);
                steps.push(ReconnectAction::Handshake);
                steps.push(ReconnectAction::StartPingWorker);
            }
            steps.push(ReconnectAction::Run);
            steps.push(ReconnectAction::EmitReconnect);
            steps.push(ReconnectAction::EmitReconnect);
            assert(steps@ =~= reconnect_steps(c.force_handshake));
            Ok(steps)
        },
    }
}

} // verus!
