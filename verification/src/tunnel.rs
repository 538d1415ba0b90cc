//! The byte pump of a tunnel through a bastion.
//!
//! A forwarding thread accepts exactly one connection on the local
//! listener, opens a channel to the target through the bastion session,
//! and then relays bytes both ways until either side ends or the
//! shutdown flag is set. Listener, channel and stream are non-blocking;
//! the thread performs each call and asks here what follows.

use vstd::prelude::*;

verus! {

/// Longest wait for the one inbound connection, in milliseconds.
pub const ACCEPT_TIMEOUT_MILLIS: u64 = 10000;

/// Pause after an accept that found no connection, in milliseconds.
pub const ACCEPT_PAUSE_MILLIS: u64 = 100;

/// Pause after a channel open that would have blocked, in milliseconds.
pub const OPEN_PAUSE_MILLIS: u64 = 10;

/// Pause after a write that would have blocked, in milliseconds.
pub const WRITE_PAUSE_MILLIS: u64 = 1;

/// Pause after a round in which neither side had data, in milliseconds.
pub const IDLE_PAUSE_MILLIS: u64 = 2;

/// Size of the relay buffer in bytes.
pub const RELAY_BUFFER_BYTES: usize = 32768;

/// Where the forwarding thread stands.
#[derive(Clone, Copy, Debug, PartialEq, Eq, Structural)]
pub enum TunnelPhase {
    /// Waiting for the one inbound connection.
    Accepting,
    /// Opening the channel to the target.
    Opening,
    /// Relaying bytes.
    Relaying,
    /// Done; the thread ends.
    Stopped,
}

/// One end of the relay.
#[derive(Clone, Copy, Debug, PartialEq, Eq, Structural)]
pub enum Side {
    /// The local stream.
    Local,
    /// The channel through the bastion.
    Remote,
}

/// What a non-blocking call gave.
#[derive(Clone, Copy, Debug, PartialEq, Eq, Structural)]
pub enum Polled {
    /// It succeeded; for a read, with this many bytes, none at the end
    /// of the stream.
    Ready { bytes: usize },
    /// Nothing yet.
    WouldBlock,
    /// It failed.
    Failed,
}

/// What the forwarding thread does next.
#[derive(Clone, Copy, Debug, PartialEq, Eq, Structural)]
pub enum TunnelNext {
    /// Pause, then try to accept the connection.
    Accept { pause_millis: u64 },
    /// Pause, then try to open the channel.
    Open { pause_millis: u64 },
    /// Pause, then start a round of the relay with `begin_round`.
    Round { pause_millis: u64 },
    /// Read from this side.
    Read { side: Side },
    /// Write the bytes just read from `from` to the other side, all of
    /// them, pausing after each write that would have blocked.
    Write { from: Side, bytes: usize },
    /// End the thread.
    Stop,
}

/// The state of the forwarding thread of one tunnel.
#[derive(Clone, Copy, Debug, PartialEq, Eq, Structural)]
pub struct JumpTunnel {
    pub phase: TunnelPhase,
    /// Whether the current round of the relay moved any bytes.
    pub moved: bool,
}

/// After an accept: a connection moves on to the channel; an empty
/// queue is tried again while neither the flag nor the timeout ends the
/// wait; a failure ends the thread.
pub open spec fn spec_on_accept(t: JumpTunnel, shutdown: bool, waited_millis: u64, polled: Polled) -> (
    JumpTunnel,
    TunnelNext,
) {
    if t.phase != TunnelPhase::Accepting {
        (t, TunnelNext::Stop)
    } else {
        match polled {
            Polled::Ready { .. } => (
                JumpTunnel { phase: TunnelPhase::Opening, ..t },
                TunnelNext::Open { pause_millis: 0 },
            ),
            Polled::WouldBlock => if shutdown || waited_millis > ACCEPT_TIMEOUT_MILLIS {
                (JumpTunnel { phase: TunnelPhase::Stopped, ..t }, TunnelNext::Stop)
            } else {
                (t, TunnelNext::Accept { pause_millis: ACCEPT_PAUSE_MILLIS })
            },
            Polled::Failed => (JumpTunnel { phase: TunnelPhase::Stopped, ..t }, TunnelNext::Stop),
        }
    }
}

/// After an attempt to open the channel.
pub open spec fn spec_on_open(t: JumpTunnel, shutdown: bool, polled: Polled) -> (
    JumpTunnel,
    TunnelNext,
) {
    if t.phase != TunnelPhase::Opening {
        (t, TunnelNext::Stop)
    } else {
        match polled {
            Polled::Ready { .. } => (
                JumpTunnel { phase: TunnelPhase::Relaying, moved: false },
                TunnelNext::Round { pause_millis: 0 },
            ),
            Polled::WouldBlock => if shutdown {
                (JumpTunnel { phase: TunnelPhase::Stopped, ..t }, TunnelNext::Stop)
            } else {
                (t, TunnelNext::Open { pause_millis: OPEN_PAUSE_MILLIS })
            },
            Polled::Failed => (JumpTunnel { phase: TunnelPhase::Stopped, ..t }, TunnelNext::Stop),
        }
    }
}

/// At the start of a round: the flag ends the relay, otherwise the
/// local side is read first.
pub open spec fn spec_begin_round(t: JumpTunnel, shutdown: bool) -> (JumpTunnel, TunnelNext) {
    if t.phase != TunnelPhase::Relaying {
        (t, TunnelNext::Stop)
    } else if shutdown {
        (JumpTunnel { phase: TunnelPhase::Stopped, ..t }, TunnelNext::Stop)
    } else {
        (JumpTunnel { moved: false, ..t }, TunnelNext::Read { side: Side::Local })
    }
}

/// What follows once `side` is dealt with in this round: the remote
/// side after the local one, the next round after the remote one, at
/// once if bytes moved and after a pause if not.
pub open spec fn spec_after_side(t: JumpTunnel, side: Side) -> TunnelNext {
    match side {
        Side::Local => TunnelNext::Read { side: Side::Remote },
        Side::Remote => TunnelNext::Round {
            pause_millis: if t.moved {
                0
            } else {
                IDLE_PAUSE_MILLIS
            },
        },
    }
}

/// After a read from `side`: bytes are written to the other side, the
/// end of the stream or a failure ends the relay, and nothing yet
/// moves on.
pub open spec fn spec_on_read(t: JumpTunnel, side: Side, polled: Polled) -> (JumpTunnel, TunnelNext) {
    if t.phase != TunnelPhase::Relaying {
        (t, TunnelNext::Stop)
    } else {
        match polled {
            Polled::Ready { bytes } => if bytes == 0 {
                (JumpTunnel { phase: TunnelPhase::Stopped, ..t }, TunnelNext::Stop)
            } else {
                (JumpTunnel { moved: true, ..t }, TunnelNext::Write { from: side, bytes })
            },
            Polled::WouldBlock => (t, spec_after_side(t, side)),
            Polled::Failed => (JumpTunnel { phase: TunnelPhase::Stopped, ..t }, TunnelNext::Stop),
        }
    }
}

/// After the bytes read from `from` were written out, or could not be.
pub open spec fn spec_on_written(t: JumpTunnel, from: Side, written: bool) -> (
    JumpTunnel,
    TunnelNext,
) {
    if t.phase != TunnelPhase::Relaying {
        (t, TunnelNext::Stop)
    } else if written {
        (t, spec_after_side(t, from))
    } else {
        (JumpTunnel { phase: TunnelPhase::Stopped, ..t }, TunnelNext::Stop)
    }
}

impl JumpTunnel {
    /// A forwarding thread that is about to accept its connection.
    pub fn new() -> (t: Self)
        ensures
            t == (JumpTunnel { phase: TunnelPhase::Accepting, moved: false }),
    {
        JumpTunnel { phase: TunnelPhase::Accepting, moved: false }
    }

    /// What follows the work on one side: the other side, or the next round.
    fn after_side(&self, side: Side) -> (next: TunnelNext)
        ensures
            next == spec_after_side(*self, side),
    {
        match side {
            Side::Local => TunnelNext::Read { side: Side::Remote },
            Side::Remote => TunnelNext::Round {
                pause_millis: if self.moved {
                    0
                } else {
                    IDLE_PAUSE_MILLIS
                },
            },
        }
    }

    /// Ends the relay.
    fn stop(&mut self) -> (next: TunnelNext)
        ensures
            *final(self) == (JumpTunnel { phase: TunnelPhase::Stopped, ..*old(self) }),
            next == TunnelNext::Stop,
    {
        self.phase = TunnelPhase::Stopped;
        TunnelNext::Stop
    }

    /// Takes in the result of an accept on the listener, tried after
    /// `waited_millis` of waiting.
    pub fn on_accept(&mut self, shutdown: bool, waited_millis: u64, polled: Polled) -> (next:
        TunnelNext)
        ensures
            (*final(self), next) == spec_on_accept(*old(self), shutdown, waited_millis, polled),
    {
        if self.phase != TunnelPhase::Accepting {
            return TunnelNext::Stop;
        }
        match polled {
            Polled::Ready { .. } => {
                self.phase = TunnelPhase::Opening;
                TunnelNext::Open { pause_millis: 0 }
            },
            Polled::WouldBlock => {
                if shutdown || waited_millis > ACCEPT_TIMEOUT_MILLIS {
                    self.stop()
                } else {
                    TunnelNext::Accept { pause_millis: ACCEPT_PAUSE_MILLIS }
                }
            },
            Polled::Failed => self.stop(),
        }
    }

    /// Takes in the result of opening the channel to the target.
    pub fn on_open(&mut self, shutdown: bool, polled: Polled) -> (next: TunnelNext)
        ensures
            (*final(self), next) == spec_on_open(*old(self), shutdown, polled),
    {
        if self.phase != TunnelPhase::Opening {
            return TunnelNext::Stop;
        }
        match polled {
            Polled::Ready { .. } => {
                self.phase = TunnelPhase::Relaying;
                self.moved = false;
                TunnelNext::Round { pause_millis: 0 }
            },
            Polled::WouldBlock => {
                if shutdown {
                    self.stop()
                } else {
                    TunnelNext::Open { pause_millis: OPEN_PAUSE_MILLIS }
                }
            },
            Polled::Failed => self.stop(),
        }
    }

    /// Starts a round of the relay.
    pub fn begin_round(&mut self, shutdown: bool) -> (next: TunnelNext)
        ensures
            (*final(self), next) == spec_begin_round(*old(self), shutdown),
    {
        if self.phase != TunnelPhase::Relaying {
            return TunnelNext::Stop;
        }
        if shutdown {
            return self.stop();
        }
        self.moved = false;
        TunnelNext::Read { side: Side::Local }
    }

    /// Takes in the result of a read from `side`.
    pub fn on_read(&mut self, side: Side, polled: Polled) -> (next: TunnelNext)
        ensures
            (*final(self), next) == spec_on_read(*old(self), side, polled),
    {
        if self.phase != TunnelPhase::Relaying {
            return TunnelNext::Stop;
        }
        match polled {
            Polled::Ready { bytes } => {
                if bytes == 0 {
                    self.stop()
                } else {
                    self.moved = true;
                    TunnelNext::Write { from: side, bytes }
                }
            },
            Polled::WouldBlock => self.after_side(side),
            Polled::Failed => self.stop(),
        }
    }

    /// Takes in whether the bytes read from `from` were written out in
    /// full.
    pub fn on_written(&mut self, from: Side, written: bool) -> (next: TunnelNext)
        ensures
            (*final(self), next) == spec_on_written(*old(self), from, written),
    {
        if self.phase != TunnelPhase::Relaying {
            return TunnelNext::Stop;
        }
        if written {
            self.after_side(from)
        } else {
            self.stop()
        }
    }
}

/// A forwarding thread that has stopped stays stopped, and a set
/// shutdown flag stops it at the latest at the next accept that finds
/// nothing, the next channel open that would block, or the start of
/// the next round.
pub proof fn lemma_tunnel_stops(t: JumpTunnel, polled: Polled, side: Side, waited: u64)
    ensures
        t.phase == TunnelPhase::Stopped ==> {
            &&& spec_on_accept(t, false, waited, polled) == (t, TunnelNext::Stop)
            &&& spec_on_open(t, false, polled) == (t, TunnelNext::Stop)
            &&& spec_begin_round(t, false) == (t, TunnelNext::Stop)
            &&& spec_on_read(t, side, polled) == (t, TunnelNext::Stop)
            &&& spec_on_written(t, side, true) == (t, TunnelNext::Stop)
        },
        t.phase == TunnelPhase::Accepting ==> spec_on_accept(t, true, waited, Polled::WouldBlock).1
            == TunnelNext::Stop,
        t.phase == TunnelPhase::Opening ==> spec_on_open(t, true, Polled::WouldBlock).1
            == TunnelNext::Stop,
        spec_begin_round(t, true).1 == TunnelNext::Stop,
        spec_on_read(t, side, Polled::Ready { bytes: 0 }).1 == TunnelNext::Stop,
{
}

} // verus!
