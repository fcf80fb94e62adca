use vstd::prelude::*;

verus! {

/// The kind of an I/O failure, as far as the bridge tells failures apart.
#[derive(Clone, Copy, Debug, PartialEq, Eq, Structural)]
pub enum IoFault {
    ConnectionRefused,
    ConnectionReset,
    ConnectionAborted,
    NotConnected,
    HostUnreachable,
    NetworkUnreachable,
    AddrNotAvailable,
    BrokenPipe,
    TimedOut,
    WriteZero,
    UnexpectedEof,
    InvalidInput,
    Other,
}

/// Every failure the bridge distinguishes, from the listener down to one stream.
#[derive(Clone, Copy, Debug, PartialEq, Eq, Structural)]
pub enum BridgeError {
    /// The listener cannot bind or accept at all: the process ends.
    ListenError,
    /// One session failed before it could serve streams.
    SessionAcceptError,
    /// Accepting the next stream of a session failed.
    StreamAcceptError,
    /// The session has no more streams.
    EndOfSession,
    /// The configured target endpoint is malformed; no dial is made.
    InvalidTargetConfig,
    /// The dial did not complete within the connect timeout.
    ConnectTimeout,
    /// The dial failed, with the underlying cause.
    ConnectFailed(IoFault),
    /// A copy direction failed after the backend connection was made.
    ForwardingFailed(IoFault),
}

/// The I/O error kind under which a failure is reported.
pub open spec fn io_kind_of(e: BridgeError) -> IoFault {
    match e {
        BridgeError::InvalidTargetConfig => IoFault::InvalidInput,
        BridgeError::ConnectTimeout => IoFault::TimedOut,
        BridgeError::ConnectFailed(f) => f,
        BridgeError::ForwardingFailed(_) => IoFault::BrokenPipe,
        BridgeError::EndOfSession => IoFault::UnexpectedEof,
        _ => IoFault::Other,
    }
}

impl BridgeError {
    /// The I/O error kind under which this failure is reported: a dial
    /// failure keeps its cause, a forwarding failure is a broken pipe.
    pub fn io_kind(&self) -> (r: IoFault)
        ensures
            r == io_kind_of(*self),
    {
        match self {
            BridgeError::InvalidTargetConfig => IoFault::InvalidInput,
            BridgeError::ConnectTimeout => IoFault::TimedOut,
            BridgeError::ConnectFailed(f) => *f,
            BridgeError::ForwardingFailed(_) => IoFault::BrokenPipe,
            BridgeError::EndOfSession => IoFault::UnexpectedEof,
            _ => IoFault::Other,
        }
    }

    /// Whether the failure ends the whole process: only a listener failure does.
    pub fn is_fatal(&self) -> (r: bool)
        ensures
            r == (*self is ListenError),
    {
        match self {
            BridgeError::ListenError => true,
            _ => false,
        }
    }
}

} // verus!
