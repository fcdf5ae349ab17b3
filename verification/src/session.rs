//! The connection lifecycle every venue adapter runs, as an explicit state
//! machine: Disconnected -> Connecting -> Subscribing -> Streaming, falling
//! back to Disconnected on any failure, with a fixed backoff before the next
//! attempt and a fixed-interval liveness probe with a fixed timeout while
//! streaming.
//!
//! The async loop around it (socket calls, timers) performs the returned
//! action and feeds the next event back in; every decision the loop takes is
//! made here.

use vstd::prelude::*;

verus! {

/// How often a liveness probe is sent while streaming, in milliseconds.
pub const PING_INTERVAL_MS: i64 = 1_000;

/// How long an unacknowledged probe may stand before the connection is
/// treated as dead, in milliseconds.
pub const PONG_TIMEOUT_MS: i64 = 5_000;

/// How long to wait after a connection dies before reconnecting, in
/// milliseconds.
pub const RECONNECT_DELAY_MS: i64 = 1_000;

/// Timestamps the machine accepts; keeps every timer sum well within `i64`.
pub const MAX_SESSION_TIME_MS: i64 = 0x4000_0000_0000_0000;

#[derive(Clone, Copy, Debug, PartialEq, Eq, Structural)]
pub enum ConnectionPhase {
    Disconnected,
    Connecting,
    Subscribing,
    Streaming,
}

/// What the surrounding loop observed since the last step.
#[derive(Clone, Copy, Debug, PartialEq, Eq, Structural)]
pub enum SessionEvent {
    /// The transport connection was established.
    Opened,
    /// The venue acknowledged the subscription handshake.
    SubscribeAcked,
    /// A liveness acknowledgment was observed.
    PongObserved,
    /// The periodic timer fired.
    Tick,
    /// The transport failed: connect error, read/write error, or a message
    /// that could not be decoded fatally.
    ConnectionFailed,
}

/// What the surrounding loop must do next.
#[derive(Clone, Copy, Debug, PartialEq, Eq, Structural)]
pub enum SessionAction {
    /// Nothing to do until the next event.
    Wait,
    /// Establish the transport connection.
    OpenConnection,
    /// Send the venue-specific subscription handshake.
    SendSubscribe,
    /// Send a liveness probe.
    SendPing,
    /// Close the connection; the machine has already scheduled the retry.
    CloseAndBackoff,
}

/// The adapter's connection state: the phase plus the three timers that
/// drive reconnection and keepalive.
#[derive(Clone, Copy, Debug, PartialEq, Eq, Structural)]
pub struct SessionState {
    pub phase: ConnectionPhase,
    /// Earliest time the next connection attempt may start.
    pub retry_at: i64,
    /// When the last liveness probe was sent.
    pub last_ping: i64,
    /// When liveness was last confirmed.
    pub last_pong: i64,
}

impl SessionState {
    /// A fresh adapter: disconnected, first connection attempt due at once.
    pub fn new(now_ms: i64) -> (s: SessionState)
        ensures
            s.phase is Disconnected,
            s.retry_at == now_ms,
            s.last_ping == now_ms,
            s.last_pong == now_ms,
    {
        SessionState {
            phase: ConnectionPhase::Disconnected,
            retry_at: now_ms,
            last_ping: now_ms,
            last_pong: now_ms,
        }
    }

    /// One transition of the machine. `ConnectionFailed` always tears down
    /// and schedules a retry after [`RECONNECT_DELAY_MS`]; while streaming,
    /// a tick past [`PONG_TIMEOUT_MS`] without an acknowledgment does the
    /// same, and otherwise a probe is sent every [`PING_INTERVAL_MS`].
    /// Events that do not fit the phase change nothing.
    pub fn step(&mut self, event: SessionEvent, now_ms: i64) -> (action: SessionAction)
        requires
            0 <= now_ms < MAX_SESSION_TIME_MS,
            0 <= old(self).last_ping < MAX_SESSION_TIME_MS,
            0 <= old(self).last_pong < MAX_SESSION_TIME_MS,
        ensures
            event is ConnectionFailed ==> *final(self) == (SessionState {
                phase: ConnectionPhase::Disconnected,
                retry_at: (now_ms + RECONNECT_DELAY_MS) as i64,
                ..*old(self)
            }) && action is CloseAndBackoff,
            event is Tick && old(self).phase is Disconnected ==> if now_ms >= old(self).retry_at {
                *final(self) == (SessionState { phase: ConnectionPhase::Connecting, ..*old(self) })
                    && action is OpenConnection
            } else {
                *final(self) == *old(self) && action is Wait
            },
            event is Opened ==> if old(self).phase is Connecting {
                *final(self) == (SessionState {
                    phase: ConnectionPhase::Subscribing,
                    last_pong: now_ms,
                    ..*old(self)
                }) && action is SendSubscribe
            } else {
                *final(self) == *old(self) && action is Wait
            },
            event is SubscribeAcked ==> if old(self).phase is Subscribing {
                *final(self) == (SessionState {
                    phase: ConnectionPhase::Streaming,
                    last_ping: now_ms,
                    last_pong: now_ms,
                    ..*old(self)
                }) && action is Wait
            } else {
                *final(self) == *old(self) && action is Wait
            },
            event is PongObserved ==> if old(self).phase is Streaming {
                *final(self) == (SessionState { last_pong: now_ms, ..*old(self) })
                    && action is Wait
            } else {
                *final(self) == *old(self) && action is Wait
            },
            event is Tick && old(self).phase is Streaming ==> if now_ms - old(self).last_pong
                > PONG_TIMEOUT_MS {
                *final(self) == (SessionState {
                    phase: ConnectionPhase::Disconnected,
                    retry_at: (now_ms + RECONNECT_DELAY_MS) as i64,
                    ..*old(self)
                }) && action is CloseAndBackoff
            } else if now_ms - old(self).last_ping >= PING_INTERVAL_MS {
                *final(self) == (SessionState { last_ping: now_ms, ..*old(self) })
                    && action is SendPing
            } else {
                *final(self) == *old(self) && action is Wait
            },
            event is Tick && (old(self).phase is Connecting || old(self).phase is Subscribing) ==> *final(self) == *old(self) && action is Wait,
    {
        match event {
            SessionEvent::ConnectionFailed => {
                self.phase = ConnectionPhase::Disconnected;
                self.retry_at = now_ms + RECONNECT_DELAY_MS;
                SessionAction::CloseAndBackoff
            },
            SessionEvent::Opened => {
                if let ConnectionPhase::Connecting = self.phase {
                    self.phase = ConnectionPhase::Subscribing;
                    self.last_pong = now_ms;
                    SessionAction::SendSubscribe
                } else {
                    SessionAction::Wait
                }
            },
            SessionEvent::SubscribeAcked => {
                if let ConnectionPhase::Subscribing = self.phase {
                    self.phase = ConnectionPhase::Streaming;
                    self.last_ping = now_ms;
                    self.last_pong = now_ms;
                    SessionAction::Wait
                } else {
                    SessionAction::Wait
                }
            },
            SessionEvent::PongObserved => {
                if let ConnectionPhase::Streaming = self.phase {
                    self.last_pong = now_ms;
                    SessionAction::Wait
                } else {
                    SessionAction::Wait
                }
            },
            SessionEvent::Tick => {
                match self.phase {
                    ConnectionPhase::Disconnected => {
                        if now_ms >= self.retry_at {
                            self.phase = ConnectionPhase::Connecting;
                            SessionAction::OpenConnection
                        } else {
                            SessionAction::Wait
                        }
                    },
                    ConnectionPhase::Streaming => {
                        if now_ms - self.last_pong > PONG_TIMEOUT_MS {
                            self.phase = ConnectionPhase::Disconnected;
                            self.retry_at = now_ms + RECONNECT_DELAY_MS;
                            SessionAction::CloseAndBackoff
                        } else if now_ms - self.last_ping >= PING_INTERVAL_MS {
                            self.last_ping = now_ms;
                            SessionAction::SendPing
                        } else {
                            SessionAction::Wait
                        }
                    },
                    _ => SessionAction::Wait,
                }
            },
        }
    }
}

/// Whether a transport-level pong answers the probe counter we last sent:
/// its payload must lead with that counter byte. The account-polled venue
/// numbers its transport pings this way.
pub fn pong_matches(expected: u8, payload: &Vec<u8>) -> (r: bool)
    ensures
        r == (payload@.len() > 0 && payload@[0] == expected),
{
    payload.len() > 0 && payload[0] == expected
}

/// The next probe counter, wrapping around.
pub fn next_ping_counter(counter: u8) -> (r: u8)
    ensures
        r == (counter + 1) % 256,
{
    if counter == 255 {
        0
    } else {
        counter + 1
    }
}

} // verus!
