use vstd::prelude::*;

use crate::config::{BridgeConfig, Endpoint};
use crate::error::{BridgeError, IoFault};
use crate::relay::{Relay, lemma_relay_delivers_all};

verus! {

/// How a backend dial ended.
#[derive(Clone, Copy, Debug, PartialEq, Eq, Structural)]
pub enum DialOutcome {
    Connected,
    Failed(IoFault),
    TimedOut,
}

/// The two copy directions of a forwarding unit.
#[derive(Clone, Copy, Debug, PartialEq, Eq, Structural)]
pub enum Direction {
    /// From the logical stream to the backend connection.
    ToBackend,
    /// From the backend connection to the logical stream.
    ToPeer,
}

/// Where a forwarding unit stands.
#[derive(Clone, Copy, Debug, PartialEq, Eq, Structural)]
pub enum UnitPhase {
    Dialing,
    Forwarding,
    Closing,
    Done,
}

/// What a forwarding unit asks its caller to do next.
#[derive(Clone, Copy, Debug, PartialEq, Eq)]
pub enum UnitAction {
    /// Dial the endpoint, abandoning the attempt after the given
    /// milliseconds; report with `on_dialed`.
    Dial(Endpoint, u64),
    /// Run both copy directions concurrently; report each end with
    /// `on_direction_finished`.
    Forward,
    /// Shut down the stream's write half, ignoring any failure of that;
    /// report with `on_shutdown_done`.
    ShutdownStream,
    /// Shut down every write half that is still open, the stream's and the
    /// backend's, ignoring failures; report with `on_shutdown_done`.
    ShutdownAll,
    /// Wait for the other direction to finish.
    Wait,
    /// The unit is over: the byte counts of both directions, or the failure.
    Report(Result<(u64, u64), BridgeError>),
}

/// The pairing of one logical stream with one backend connection, from the
/// dial to the conclusion. The target is resolved once, when the unit starts.
pub struct ForwardingUnit {
    phase: UnitPhase,
    target: Option<Endpoint>,
    to_backend: Option<Result<u64, IoFault>>,
    to_peer: Option<Result<u64, IoFault>>,
    first_fault: Option<IoFault>,
    failure: Option<BridgeError>,
    result: Option<Result<(u64, u64), BridgeError>>,
}

/// The failure a dial outcome stands for, if any.
pub open spec fn dial_failure(o: DialOutcome) -> Option<BridgeError> {
    match o {
        DialOutcome::Connected => None,
        DialOutcome::Failed(f) => Some(BridgeError::ConnectFailed(f)),
        DialOutcome::TimedOut => Some(BridgeError::ConnectTimeout),
    }
}

/// How a unit concludes from the outcomes of its two directions, given the
/// failure observed first: both byte counts when both succeeded, otherwise
/// a forwarding failure carrying that first failure.
pub open spec fn conclusion(
    to_backend: Result<u64, IoFault>,
    to_peer: Result<u64, IoFault>,
    first_fault: Option<IoFault>,
) -> Result<(u64, u64), BridgeError> {
    match (to_backend, to_peer) {
        (Ok(a), Ok(b)) => Ok((a, b)),
        _ => match first_fault {
            Some(f) => Err(BridgeError::ForwardingFailed(f)),
            None => Err(BridgeError::ForwardingFailed(IoFault::Other)),
        },
    }
}

/// The contract of `ForwardingUnit::start`: the unit that `config` gives
/// and the first action it asks for.
pub open spec fn starts(config: BridgeConfig, u: ForwardingUnit, a: UnitAction) -> bool {
    &&& u.wf()
    &&& u.target() == config.target
    &&& u.direction_outcome(Direction::ToBackend).is_none()
    &&& u.direction_outcome(Direction::ToPeer).is_none()
    &&& u.first_fault().is_none()
    &&& config.target matches Some(e) ==> u.phase() == UnitPhase::Dialing && a == UnitAction::Dial(
        e,
        config.connect_timeout_ms,
    )
    &&& config.target.is_none() ==> u.phase() == UnitPhase::Closing && u.failure() == Some(
        BridgeError::InvalidTargetConfig,
    ) && a == UnitAction::ShutdownStream
}

/// The contract of `on_dialed`: unit `u` learns dial outcome `o`, becomes
/// `v` and asks for `a`.
pub open spec fn dialed(u: ForwardingUnit, o: DialOutcome, v: ForwardingUnit, a: UnitAction) -> bool {
    &&& v.wf()
    &&& v.target() == u.target()
    &&& v.direction_outcome(Direction::ToBackend).is_none()
    &&& v.direction_outcome(Direction::ToPeer).is_none()
    &&& v.first_fault().is_none()
    &&& o == DialOutcome::Connected ==> v.phase() == UnitPhase::Forwarding && a
        == UnitAction::Forward
    &&& o != DialOutcome::Connected ==> v.phase() == UnitPhase::Closing && v.failure()
        == dial_failure(o) && a == UnitAction::ShutdownStream
}

/// The other copy direction.
pub open spec fn other_direction(d: Direction) -> Direction {
    match d {
        Direction::ToBackend => Direction::ToPeer,
        Direction::ToPeer => Direction::ToBackend,
    }
}

/// The contract of `on_direction_finished`: unit `u` learns that direction
/// `d` ended with `o`, becomes `v` and asks for `a`.
pub open spec fn direction_finished(
    u: ForwardingUnit,
    d: Direction,
    o: Result<u64, IoFault>,
    v: ForwardingUnit,
    a: UnitAction,
) -> bool {
    &&& v.wf()
    &&& v.target() == u.target()
    &&& v.direction_outcome(d) == Some(o)
    &&& v.direction_outcome(other_direction(d)) == u.direction_outcome(other_direction(d))
    &&& v.first_fault() == (match u.first_fault() {
        Some(f) => Some(f),
        None => match o {
            Err(f) => Some(f),
            Ok(_) => None,
        },
    })
    &&& u.direction_outcome(other_direction(d)).is_none() ==> v.phase() == UnitPhase::Forwarding
        && a == UnitAction::Wait
    &&& u.direction_outcome(other_direction(d)) matches Some(p) ==> {
        let (x, y) = if d == Direction::ToBackend {
            (o, p)
        } else {
            (p, o)
        };
        match conclusion(x, y, v.first_fault()) {
            Ok(counts) => v.phase() == UnitPhase::Done && v.result() == Some(
                Ok::<(u64, u64), BridgeError>(counts),
            ) && a == UnitAction::Report(Ok(counts)),
            Err(e) => v.phase() == UnitPhase::Closing && v.failure() == Some(e) && a
                == UnitAction::ShutdownAll,
        }
    }
}

/// The contract of `on_shutdown_done`: unit `u`, whose shutdown has been
/// attempted, becomes `v` and reports its failure with `a`.
pub open spec fn shutdown_done(u: ForwardingUnit, v: ForwardingUnit, a: UnitAction) -> bool {
    &&& v.wf()
    &&& v.phase() == UnitPhase::Done
    &&& v.target() == u.target()
    &&& u.failure() matches Some(e) && a == UnitAction::Report(Err(e)) && v.result() == Some(
        Err::<(u64, u64), BridgeError>(e),
    )
}

impl ForwardingUnit {
    pub closed spec fn phase(&self) -> UnitPhase {
        self.phase
    }

    /// The endpoint resolved at start; `None` when the configuration was malformed.
    pub closed spec fn target(&self) -> Option<Endpoint> {
        self.target
    }

    /// What a direction reported, if it has finished.
    pub closed spec fn direction_outcome(&self, d: Direction) -> Option<Result<u64, IoFault>> {
        match d {
            Direction::ToBackend => self.to_backend,
            Direction::ToPeer => self.to_peer,
        }
    }

    /// The failure of the first direction that failed.
    pub closed spec fn first_fault(&self) -> Option<IoFault> {
        self.first_fault
    }

    /// The failure to report once the stream has been shut down.
    pub closed spec fn failure(&self) -> Option<BridgeError> {
        self.failure
    }

    /// What the unit reported, once done.
    pub closed spec fn result(&self) -> Option<Result<(u64, u64), BridgeError>> {
        self.result
    }

    /// The unit's invariant: each phase has what it needs, success is
    /// backed by both directions, and the first failure is one they reported.
    pub closed spec fn wf(&self) -> bool {
        &&& (self.phase == UnitPhase::Dialing) ==> self.target.is_some()
            && self.to_backend.is_none() && self.to_peer.is_none()
        &&& (self.phase == UnitPhase::Closing) <==> self.failure.is_some()
        &&& (self.phase == UnitPhase::Done) <==> self.result.is_some()
        &&& self.result matches Some(Ok((a, b))) ==> self.to_backend == Some(Ok::<u64, IoFault>(a))
            && self.to_peer == Some(Ok::<u64, IoFault>(b))
        &&& self.phase != UnitPhase::Forwarding ==> self.to_backend.is_none() == self.to_peer.is_none()
        &&& (self.first_fault.is_some() <==> (self.to_backend matches Some(Err(_))
            || self.to_peer matches Some(Err(_))))
        &&& self.first_fault matches Some(f) ==> (self.to_backend == Some(
            Err::<u64, IoFault>(f),
        ) || self.to_peer == Some(Err::<u64, IoFault>(f)))
    }

    /// Starts a unit for a newly accepted stream. With a well-formed target
    /// it asks for a dial bounded by the connect timeout; with a malformed
    /// one it makes no dial and asks for the stream to be shut down.
    pub fn start(config: &BridgeConfig) -> (r: (ForwardingUnit, UnitAction))
        ensures
            starts(*config, r.0, r.1),
    {
        match config.target {
            Some(e) => {
                let unit = ForwardingUnit {
                    phase: UnitPhase::Dialing,
                    target: Some(e),
                    to_backend: None,
                    to_peer: None,
                    first_fault: None,
                    failure: None,
                    result: None,
                };
                (unit, UnitAction::Dial(e, config.connect_timeout_ms))
            },
            None => {
                let unit = ForwardingUnit {
                    phase: UnitPhase::Closing,
                    target: None,
                    to_backend: None,
                    to_peer: None,
                    first_fault: None,
                    failure: Some(BridgeError::InvalidTargetConfig),
                    result: None,
                };
                (unit, UnitAction::ShutdownStream)
            },
        }
    }

    /// Reports how the dial ended. A connection starts forwarding; a
    /// timeout or a network failure asks for the stream to be shut down,
    /// with no retry.
    pub fn on_dialed(&mut self, o: DialOutcome) -> (r: UnitAction)
        requires
            old(self).wf(),
            old(self).phase() == UnitPhase::Dialing,
        ensures
            dialed(*old(self), o, *final(self), r),
    {
        match o {
            DialOutcome::Connected => {
                self.phase = UnitPhase::Forwarding;
                UnitAction::Forward
            },
            DialOutcome::Failed(f) => {
                self.phase = UnitPhase::Closing;
                self.failure = Some(BridgeError::ConnectFailed(f));
                UnitAction::ShutdownStream
            },
            DialOutcome::TimedOut => {
                self.phase = UnitPhase::Closing;
                self.failure = Some(BridgeError::ConnectTimeout);
                UnitAction::ShutdownStream
            },
        }
    }

    /// Reports that one copy direction finished. The unit waits until both
    /// have: neither is cut short because the other ended. Then it reports
    /// both byte counts, or, when either failed, asks for every write half
    /// to be shut down before it reports the first failure observed.
    pub fn on_direction_finished(&mut self, d: Direction, o: Result<u64, IoFault>) -> (r: UnitAction)
        requires
            old(self).wf(),
            old(self).phase() == UnitPhase::Forwarding,
            old(self).direction_outcome(d).is_none(),
        ensures
            direction_finished(*old(self), d, o, *final(self), r),
    {
        if self.first_fault.is_none() {
            if let Err(f) = o {
                self.first_fault = Some(f);
            }
        }
        match d {
            Direction::ToBackend => {
                self.to_backend = Some(o);
            },
            Direction::ToPeer => {
                self.to_peer = Some(o);
            },
        }
        match (self.to_backend, self.to_peer) {
            (Some(Ok(a)), Some(Ok(b))) => {
                self.phase = UnitPhase::Done;
                self.result = Some(Ok((a, b)));
                UnitAction::Report(Ok((a, b)))
            },
            (Some(_), Some(_)) => {
                let f = match self.first_fault {
                    Some(f) => f,
                    None => IoFault::Other,
                };
                self.phase = UnitPhase::Closing;
                self.failure = Some(BridgeError::ForwardingFailed(f));
                UnitAction::ShutdownAll
            },
            _ => UnitAction::Wait,
        }
    }

    /// Reports that the shutdown asked for has been attempted, whatever its
    /// result. The unit then reports its failure.
    pub fn on_shutdown_done(&mut self) -> (r: UnitAction)
        requires
            old(self).wf(),
            old(self).phase() == UnitPhase::Closing,
        ensures
            shutdown_done(*old(self), *final(self), r),
    {
        let e = match self.failure {
            Some(e) => e,
            None => BridgeError::ForwardingFailed(IoFault::Other),
        };
        self.failure = None;
        self.phase = UnitPhase::Done;
        self.result = Some(Err(e));
        UnitAction::Report(Err(e))
    }

    /// Where the unit stands.
    pub fn current_phase(&self) -> (r: UnitPhase)
        ensures
            r == self.phase(),
    {
        self.phase
    }

    /// What the unit reported, once done.
    pub fn report(&self) -> (r: Option<Result<(u64, u64), BridgeError>>)
        ensures
            r == self.result(),
    {
        self.result
    }
}

/// A unit whose configured target was malformed never dials: it can never
/// stand waiting for a dial, whatever is reported to it.
pub proof fn lemma_malformed_target_never_dials(u: &ForwardingUnit)
    requires
        u.wf(),
        u.target().is_none(),
    ensures
        u.phase() != UnitPhase::Dialing,
{
}

/// A unit reports success only when both of its directions finished
/// successfully, with the byte counts that they reported.
pub proof fn lemma_success_needs_both_directions(u: &ForwardingUnit)
    requires
        u.wf(),
        u.result() matches Some(Ok(_)),
    ensures
        u.result() matches Some(Ok((a, b))) && u.direction_outcome(Direction::ToBackend) == Some(
            Ok::<u64, IoFault>(a),
        ) && u.direction_outcome(Direction::ToPeer) == Some(Ok::<u64, IoFault>(b)),
{
}

/// Forwarding is transparent: when a unit reports success with counts
/// `(n, m)` for the outcomes of its two relays, the backend was sent exactly
/// the `n` bytes the stream sent, and the stream exactly the `m` bytes the
/// backend sent, each unchanged and in order.
pub proof fn lemma_forwarding_is_transparent(
    unit: &ForwardingUnit,
    to_backend: &Relay,
    to_peer: &Relay,
)
    requires
        unit.wf(),
        to_backend.wf(),
        to_peer.wf(),
        unit.result() matches Some(Ok(_)),
        unit.direction_outcome(Direction::ToBackend) == to_backend.outcome_of(),
        unit.direction_outcome(Direction::ToPeer) == to_peer.outcome_of(),
    ensures
        unit.result() matches Some(Ok((n, m))) && to_backend.delivered() == to_backend.received()
            && to_backend.received().len() == n && to_peer.delivered() == to_peer.received()
            && to_peer.received().len() == m,
{
    lemma_success_needs_both_directions(unit);
    lemma_relay_delivers_all(to_backend);
    lemma_relay_delivers_all(to_peer);
}

/// A stream whose backend cannot be reached fails with `ConnectFailed`,
/// carrying the cause: the dial is bounded by the connect timeout, and as
/// soon as it fails the unit asks for the stream's write half to be shut
/// down; then it reports the failure.
pub proof fn lemma_unreachable_backend_fails_connect(
    config: BridgeConfig,
    cause: IoFault,
    u0: ForwardingUnit,
    a0: UnitAction,
    u1: ForwardingUnit,
    a1: UnitAction,
    u2: ForwardingUnit,
    a2: UnitAction,
)
    requires
        config.target.is_some(),
        starts(config, u0, a0),
        dialed(u0, DialOutcome::Failed(cause), u1, a1),
        shutdown_done(u1, u2, a2),
    ensures
        a0 == UnitAction::Dial(config.target.unwrap(), config.connect_timeout_ms),
        a1 == UnitAction::ShutdownStream,
        a2 == UnitAction::Report(Err(BridgeError::ConnectFailed(cause))),
{
}

/// With a malformed target, a stream's unit fails with
/// `InvalidTargetConfig` after shutting the stream down, and makes no dial.
pub proof fn lemma_malformed_target_fails_without_dial(
    config: BridgeConfig,
    u0: ForwardingUnit,
    a0: UnitAction,
    u1: ForwardingUnit,
    a1: UnitAction,
)
    requires
        config.target.is_none(),
        starts(config, u0, a0),
        shutdown_done(u0, u1, a1),
    ensures
        !(a0 is Dial),
        a0 == UnitAction::ShutdownStream,
        u0.phase() != UnitPhase::Dialing,
        u1.target().is_none(),
        a1 == UnitAction::Report(Err(BridgeError::InvalidTargetConfig)),
{
}

/// The two directions of a unit complete independently: when one ends
/// while the other still runs, the unit only waits, and the running
/// direction is left as it was.
pub proof fn lemma_directions_complete_independently(
    u: ForwardingUnit,
    d: Direction,
    o: Result<u64, IoFault>,
    v: ForwardingUnit,
    a: UnitAction,
)
    requires
        u.wf(),
        u.phase() == UnitPhase::Forwarding,
        u.direction_outcome(d).is_none(),
        u.direction_outcome(other_direction(d)).is_none(),
        direction_finished(u, d, o, v, a),
    ensures
        a == UnitAction::Wait,
        v.phase() == UnitPhase::Forwarding,
        v.direction_outcome(other_direction(d)).is_none(),
        v.result().is_none(),
{
}

/// Streams of one session are forwarded independently: while one unit
/// fails to connect, another unit of the same configuration that connects
/// and sees both its directions succeed reports both byte counts.
pub proof fn lemma_streams_forward_independently(
    config: BridgeConfig,
    cause: IoFault,
    s0: ForwardingUnit,
    sa0: UnitAction,
    s1: ForwardingUnit,
    sa1: UnitAction,
    t0: ForwardingUnit,
    ta0: UnitAction,
    t1: ForwardingUnit,
    ta1: UnitAction,
    t2: ForwardingUnit,
    ta2: UnitAction,
    t3: ForwardingUnit,
    ta3: UnitAction,
    n: u64,
    m: u64,
)
    requires
        config.target.is_some(),
        starts(config, s0, sa0),
        dialed(s0, DialOutcome::Failed(cause), s1, sa1),
        starts(config, t0, ta0),
        dialed(t0, DialOutcome::Connected, t1, ta1),
        direction_finished(t1, Direction::ToBackend, Ok(n), t2, ta2),
        direction_finished(t2, Direction::ToPeer, Ok(m), t3, ta3),
    ensures
        sa1 == UnitAction::ShutdownStream,
        s1.failure() == Some(BridgeError::ConnectFailed(cause)),
        ta2 == UnitAction::Wait,
        ta3 == UnitAction::Report(Ok((n, m))),
        t3.result() == Some(Ok::<(u64, u64), BridgeError>((n, m))),
{
}

} // verus!
