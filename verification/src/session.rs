//! One live session and the resources that hang on it.
//!
//! A `ManagedSession` records which native resources one authenticated
//! session owns: the session itself, and, when it was reached through a
//! bastion, the bastion session, the local listener and the forwarding
//! thread. The handles themselves live with the caller; this module decides
//! the order in which they are released.

use vstd::prelude::*;

verus! {

/// The forwarding thread of a tunnelled session.
#[derive(Clone, Copy, Debug, PartialEq, Eq, Structural)]
pub struct ForwardingThreadHandle {
    /// Identifies the thread's join handle with the caller.
    pub thread_handle: u64,
    /// Whether the thread has been told to stop.
    pub shutdown_signal: bool,
}

impl ForwardingThreadHandle {
    /// The handle of a forwarding thread and the state of its shutdown flag.
    pub fn new(thread_handle: u64, shutdown_signal: bool) -> (handle: Self)
        ensures
            handle.thread_handle == thread_handle,
            handle.shutdown_signal == shutdown_signal,
    {
        ForwardingThreadHandle { thread_handle, shutdown_signal }
    }
}

/// One authenticated session with what it owns.
#[derive(Clone, Copy, Debug, PartialEq, Eq, Structural)]
pub struct ManagedSession {
    /// Identifies the session handle with the caller.
    pub session: u64,
    /// Whether a bastion session carries this one.
    pub jump_session: bool,
    /// Whether a local listener was bound for the tunnel.
    pub forward_listener: bool,
    /// The forwarding thread, while it has not been joined.
    pub forwarding_handle: Option<ForwardingThreadHandle>,
}

/// One release action on a native handle.
#[derive(Clone, Copy, Debug, PartialEq, Eq, Structural)]
pub enum TeardownStep {
    /// Set the shutdown flag of the forwarding thread.
    SignalShutdown { thread_handle: u64 },
    /// Wait for the forwarding thread to end.
    JoinThread { thread_handle: u64 },
    /// Disconnect the bastion session that carries `session`.
    DisconnectBastion { session: u64 },
    /// Disconnect the session itself.
    DisconnectSession { session: u64 },
    /// Wake a thread parked in `accept` on the listener of `session`, by
    /// connecting to it and dropping the connection.
    UnblockListener { session: u64 },
}

/// The release order of one session: stop and join the forwarding thread,
/// disconnect the bastion, disconnect the session, unblock the listener.
pub open spec fn spec_teardown(s: ManagedSession) -> Seq<TeardownStep> {
    let thread = match s.forwarding_handle {
        Some(h) => seq![
            TeardownStep::SignalShutdown { thread_handle: h.thread_handle },
            TeardownStep::JoinThread { thread_handle: h.thread_handle },
        ],
        None => Seq::<TeardownStep>::empty(),
    };
    let bastion = if s.jump_session {
        seq![TeardownStep::DisconnectBastion { session: s.session }]
    } else {
        Seq::<TeardownStep>::empty()
    };
    let listener = if s.forward_listener {
        seq![TeardownStep::UnblockListener { session: s.session }]
    } else {
        Seq::<TeardownStep>::empty()
    };
    thread + bastion + seq![TeardownStep::DisconnectSession { session: s.session }] + listener
}

/// The session as it is left by its teardown: the thread handle is gone.
pub open spec fn spec_torn_down(s: ManagedSession) -> ManagedSession {
    ManagedSession { forwarding_handle: None, ..s }
}

impl ManagedSession {
    /// A session reached directly: it owns nothing but itself.
    pub fn direct(session: u64) -> (s: Self)
        ensures
            s == (ManagedSession {
                session,
                jump_session: false,
                forward_listener: false,
                forwarding_handle: None,
            }),
    {
        ManagedSession {
            session,
            jump_session: false,
            forward_listener: false,
            forwarding_handle: None,
        }
    }

    /// A session reached through a bastion, with its listener and its
    /// running forwarding thread.
    pub fn tunnelled(session: u64, thread_handle: u64) -> (s: Self)
        ensures
            s == (ManagedSession {
                session,
                jump_session: true,
                forward_listener: true,
                forwarding_handle: Some(
                    ForwardingThreadHandle { thread_handle, shutdown_signal: false },
                ),
            }),
    {
        ManagedSession {
            session,
            jump_session: true,
            forward_listener: true,
            forwarding_handle: Some(ForwardingThreadHandle::new(thread_handle, false)),
        }
    }

    /// Appends the release actions of this session to `steps`, in the order
    /// in which they must run, and forgets the thread handle.
    pub fn teardown_into(&mut self, steps: &mut Vec<TeardownStep>)
        ensures
            final(steps)@ == old(steps)@ + spec_teardown(*old(self)),
            *final(self) == spec_torn_down(*old(self)),
    {
        let ghost before = steps@;
        match self.forwarding_handle {
            Some(h) => {
                steps.push(TeardownStep::SignalShutdown { thread_handle: h.thread_handle });
                steps.push(TeardownStep::JoinThread { thread_handle: h.thread_handle });
            },
            None => {},
        }
        if self.jump_session {
            steps.push(TeardownStep::DisconnectBastion { session: self.session });
        }
        steps.push(TeardownStep::DisconnectSession { session: self.session });
        if self.forward_listener {
            steps.push(TeardownStep::UnblockListener { session: self.session });
        }
        self.forwarding_handle = None;
        assert(steps@ =~= before + spec_teardown(*old(self)));
    }

    /// The release actions of this session alone.
    pub fn teardown(&mut self) -> (steps: Vec<TeardownStep>)
        ensures
            steps@ == spec_teardown(*old(self)),
            *final(self) == spec_torn_down(*old(self)),
    {
        let mut steps: Vec<TeardownStep> = Vec::new();
        self.teardown_into(&mut steps);
        steps
    }
}

/// A forwarding thread is signalled and joined before the session that
/// depends on it is disconnected, and the listener is unblocked last.
pub proof fn lemma_teardown_order(s: ManagedSession)
    ensures
        spec_teardown(s).contains(TeardownStep::DisconnectSession { session: s.session }),
        s.forwarding_handle matches Some(h) ==> {
            let steps = spec_teardown(s);
            &&& steps[0] == TeardownStep::SignalShutdown { thread_handle: h.thread_handle }
            &&& steps[1] == TeardownStep::JoinThread { thread_handle: h.thread_handle }
            &&& forall|i: int|
                0 <= i < steps.len() && (steps[i] is DisconnectBastion
                    || steps[i] is DisconnectSession) ==> i >= 2
        },
        s.forward_listener ==> spec_teardown(s).last() == (TeardownStep::UnblockListener {
            session: s.session,
        }),
        forall|i: int, j: int|
            0 <= i < spec_teardown(s).len() && 0 <= j < spec_teardown(s).len()
                && spec_teardown(s)[i] is DisconnectBastion
                && spec_teardown(s)[j] is DisconnectSession ==> i < j,
{
    let steps = spec_teardown(s);
    let d = TeardownStep::DisconnectSession { session: s.session };
    let k: int = (if s.forwarding_handle is Some { 2int } else { 0int }) + (if s.jump_session { 1int } else { 0int });
    assert(steps[k] == d);
}

} // verus!
