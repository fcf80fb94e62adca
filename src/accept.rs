use vstd::prelude::*;

use crate::error::{BridgeError, IoFault};

verus! {

/// What one call of a session's stream accept returned.
#[derive(Clone, Copy, Debug, PartialEq, Eq, Structural)]
pub enum StreamAccept {
    /// A new logical stream was opened by the peer.
    Stream,
    /// The session is closed: no more streams will come.
    EndOfSession,
    /// The accept failed.
    Failed(IoFault),
}

/// What an accept loop asks its caller to do next.
#[derive(Clone, Copy, Debug, PartialEq, Eq, Structural)]
pub enum AcceptAction {
    /// Spawn the work for what was accepted, without waiting for it, and
    /// accept again.
    Spawn,
    /// Leave the loop for good.
    Stop,
}

/// The per-session loop that hands each accepted stream to its own
/// forwarding unit. It ends, without retry, at the end of the session or at
/// the first failed accept; ending it cancels no unit already spawned.
pub struct StreamAcceptor {
    stopped: Option<BridgeError>,
}

/// The reason a stream accept result ends the loop, if it does.
pub open spec fn stream_stop_reason(a: StreamAccept) -> Option<BridgeError> {
    match a {
        StreamAccept::Stream => None,
        StreamAccept::EndOfSession => Some(BridgeError::EndOfSession),
        StreamAccept::Failed(_) => Some(BridgeError::StreamAcceptError),
    }
}

/// The contract of `StreamAcceptor::on_accept`: loop `s` learns accept
/// result `x`, becomes `t` and asks for `r`.
pub open spec fn accepted(s: StreamAcceptor, x: StreamAccept, t: StreamAcceptor, r: AcceptAction) -> bool {
    &&& s.stop_reason().is_some() ==> r == AcceptAction::Stop && t.stop_reason() == s.stop_reason()
    &&& s.stop_reason().is_none() ==> t.stop_reason() == stream_stop_reason(x) && (r
        == AcceptAction::Spawn <==> x == StreamAccept::Stream)
}

impl StreamAcceptor {
    /// Why the loop ended; `None` while it runs.
    pub closed spec fn stop_reason(&self) -> Option<BridgeError> {
        self.stopped
    }

    /// A loop for a newly accepted session.
    pub fn new() -> (r: StreamAcceptor)
        ensures
            r.stop_reason().is_none(),
    {
        StreamAcceptor { stopped: None }
    }

    /// Reports one accept result. While the loop runs, each accepted stream
    /// gets exactly one forwarding unit; the end of the session or a failure
    /// stops the loop, and a stopped loop stays stopped.
    pub fn on_accept(&mut self, a: StreamAccept) -> (r: AcceptAction)
        ensures
            accepted(*old(self), a, *final(self), r),
    {
        if self.stopped.is_some() {
            return AcceptAction::Stop;
        }
        match a {
            StreamAccept::Stream => AcceptAction::Spawn,
            StreamAccept::EndOfSession => {
                self.stopped = Some(BridgeError::EndOfSession);
                AcceptAction::Stop
            },
            StreamAccept::Failed(_) => {
                self.stopped = Some(BridgeError::StreamAcceptError);
                AcceptAction::Stop
            },
        }
    }

    /// Why the loop ended; `None` while it runs.
    pub fn stopped(&self) -> (r: Option<BridgeError>)
        ensures
            r == self.stop_reason(),
    {
        self.stopped
    }
}

/// The exit status of the process for a listener failure: non-zero.
pub const LISTEN_FAILURE_EXIT_CODE: i32 = 1;

/// What the top-level loop does with one session accept result: a session
/// gets its own stream loop and the listener is polled again at once; a
/// failed accept ends the process with a listener failure.
pub fn on_session_accept(r: Result<(), IoFault>) -> (a: Result<AcceptAction, BridgeError>)
    ensures
        r is Ok <==> a == Ok::<AcceptAction, BridgeError>(AcceptAction::Spawn),
        r is Err <==> a == Err::<AcceptAction, BridgeError>(BridgeError::ListenError),
{
    match r {
        Ok(()) => Ok(AcceptAction::Spawn),
        Err(_) => Err(BridgeError::ListenError),
    }
}

/// The exit status of the process when the top-level loop ends with `e`:
/// non-zero for a fatal failure, zero otherwise.
pub fn exit_code(e: BridgeError) -> (r: i32)
    ensures
        e is ListenError ==> r == LISTEN_FAILURE_EXIT_CODE,
        !(e is ListenError) ==> r == 0,
{
    if e.is_fatal() {
        LISTEN_FAILURE_EXIT_CODE
    } else {
        0
    }
}

/// Sessions are independent: when one session closes and its stream loop
/// stops, the loop of another session that is still open goes on handing
/// each new stream to a forwarding unit of its own.
pub proof fn lemma_sessions_independent(
    a0: StreamAcceptor,
    a1: StreamAcceptor,
    ra: AcceptAction,
    b0: StreamAcceptor,
    b1: StreamAcceptor,
    rb: AcceptAction,
)
    requires
        a0.stop_reason().is_none(),
        accepted(a0, StreamAccept::EndOfSession, a1, ra),
        b0.stop_reason().is_none(),
        accepted(b0, StreamAccept::Stream, b1, rb),
    ensures
        ra == AcceptAction::Stop,
        a1.stop_reason() == Some(BridgeError::EndOfSession),
        rb == AcceptAction::Spawn,
        b1.stop_reason().is_none(),
{
}

/// A stopped stream loop stays stopped: once the session has ended, no
/// further accept result spawns a unit.
pub proof fn lemma_stopped_loop_spawns_nothing(
    s: StreamAcceptor,
    x: StreamAccept,
    t: StreamAcceptor,
    r: AcceptAction,
)
    requires
        s.stop_reason().is_some(),
        accepted(s, x, t, r),
    ensures
        r == AcceptAction::Stop,
        t.stop_reason() == s.stop_reason(),
{
}

} // verus!
