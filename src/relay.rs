use vstd::prelude::*;
use vstd::slice::slice_to_vec;

use crate::error::IoFault;

verus! {

/// What one copy direction asks its caller to do next.
#[derive(Clone, Copy, Debug, PartialEq, Eq, Structural)]
pub enum RelayStep {
    /// Read from the source into a buffer and report it with `on_read`.
    Read,
    /// Write `pending_bytes` to the sink and report with `on_written`.
    Write,
    /// Shut down the sink's write half and report with `on_shutdown`.
    Shutdown,
    /// Nothing is left to do: see `outcome`.
    Finished,
}

/// One copy direction: bytes read from a source are written, in order and
/// unchanged, to a sink; at end of stream the sink's write half is shut down.
///
/// The direction is modelled by the bytes received from the source, the
/// bytes delivered to the sink, and those held in between.
pub struct Relay {
    pending: Vec<u8>,
    eof: bool,
    closed: bool,
    fault: Option<IoFault>,
    transferred: u64,
    received_len: u64,
    received: Ghost<Seq<u8>>,
    delivered: Ghost<Seq<u8>>,
}

impl Relay {
    /// Every byte read from the source so far, in order.
    pub closed spec fn received(&self) -> Seq<u8> {
        self.received@
    }

    /// Every byte written to the sink so far, in order.
    pub closed spec fn delivered(&self) -> Seq<u8> {
        self.delivered@
    }

    /// Bytes read and not yet written.
    pub closed spec fn pending(&self) -> Seq<u8> {
        self.pending@
    }

    /// Whether the source has reported end of stream.
    pub closed spec fn at_eof(&self) -> bool {
        self.eof
    }

    /// Whether the sink's write half has been shut down.
    pub closed spec fn is_closed(&self) -> bool {
        self.closed
    }

    /// The failure that ended this direction, if any.
    pub closed spec fn fault(&self) -> Option<IoFault> {
        self.fault
    }

    /// The direction's invariant: what was received is what was delivered
    /// followed by what is pending, and the counters match the byte sequences.
    pub closed spec fn wf(&self) -> bool {
        &&& self.received@ == self.delivered@ + self.pending@
        &&& self.transferred as int == self.delivered@.len()
        &&& self.received_len as int == self.received@.len()
        &&& self.closed ==> self.eof && self.pending@.len() == 0 && self.fault.is_none()
        &&& self.eof ==> self.pending@.len() == 0
    }

    /// The next thing this direction needs done.
    pub open spec fn step(&self) -> RelayStep {
        if self.fault().is_some() || self.is_closed() {
            RelayStep::Finished
        } else if self.pending().len() > 0 {
            RelayStep::Write
        } else if self.at_eof() {
            RelayStep::Shutdown
        } else {
            RelayStep::Read
        }
    }

    /// What the direction reports once finished: the byte count on success,
    /// the failure otherwise; `None` while it runs.
    pub open spec fn outcome_of(&self) -> Option<Result<u64, IoFault>> {
        match self.fault() {
            Some(f) => Some(Err(f)),
            None => if self.is_closed() {
                Some(Ok(self.delivered().len() as u64))
            } else {
                None
            },
        }
    }

    /// A direction that has moved nothing yet.
    pub fn new() -> (r: Relay)
        ensures
            r.wf(),
            r.received() == Seq::<u8>::empty(),
            r.delivered() == Seq::<u8>::empty(),
            r.pending() == Seq::<u8>::empty(),
            !r.at_eof(),
            !r.is_closed(),
            r.fault().is_none(),
            r.step() == RelayStep::Read,
    {
        Relay {
            pending: Vec::new(),
            eof: false,
            closed: false,
            fault: None,
            transferred: 0,
            received_len: 0,
            received: Ghost(Seq::empty()),
            delivered: Ghost(Seq::empty()),
        }
    }

    /// The next thing this direction needs done.
    pub fn next_step(&self) -> (r: RelayStep)
        requires
            self.wf(),
        ensures
            r == self.step(),
    {
        if self.fault.is_some() || self.closed {
            RelayStep::Finished
        } else if self.pending.len() > 0 {
            RelayStep::Write
        } else if self.eof {
            RelayStep::Shutdown
        } else {
            RelayStep::Read
        }
    }

    /// The bytes to write to the sink next.
    pub fn pending_bytes(&self) -> (r: &[u8])
        requires
            self.wf(),
        ensures
            r@ == self.pending(),
    {
        self.pending.as_slice()
    }

    /// Number of bytes read from the source so far.
    pub fn received_count(&self) -> (r: u64)
        requires
            self.wf(),
        ensures
            r as int == self.received().len(),
    {
        self.received_len
    }

    /// Number of bytes written to the sink so far.
    pub fn transferred(&self) -> (r: u64)
        requires
            self.wf(),
        ensures
            r as int == self.delivered().len(),
    {
        self.transferred
    }

    /// Reports a read from the source: `data` holds the bytes read, and an
    /// empty read is the end of the stream.
    pub fn on_read(&mut self, data: &[u8])
        requires
            old(self).wf(),
            old(self).step() == RelayStep::Read,
            old(self).received().len() + data@.len() <= u64::MAX,
        ensures
            final(self).wf(),
            final(self).received() == old(self).received() + data@,
            final(self).delivered() == old(self).delivered(),
            final(self).pending() == data@,
            final(self).at_eof() == (data@.len() == 0),
            !final(self).is_closed(),
            final(self).fault().is_none(),
            final(self).step() == (if data@.len() == 0 {
                RelayStep::Shutdown
            } else {
                RelayStep::Write
            }),
    {
        if data.len() == 0 {
            self.eof = true;
            proof {
                assert(self.received@ + data@ =~= self.received@);
            }
        } else {
            self.pending = slice_to_vec(data);
            self.received_len = self.received_len + data.len() as u64;
            proof {
                self.received@ = self.received@ + data@;
                assert(old(self).pending@ =~= Seq::<u8>::empty());
                assert(self.received@ =~= self.delivered@ + self.pending@);
            }
        }
    }

    /// Reports a write to the sink that took the first `n` pending bytes.
    /// A write that takes nothing ends the direction with `WriteZero`.
    pub fn on_written(&mut self, n: usize)
        requires
            old(self).wf(),
            old(self).step() == RelayStep::Write,
            n <= old(self).pending().len(),
        ensures
            final(self).wf(),
            final(self).received() == old(self).received(),
            final(self).at_eof() == old(self).at_eof(),
            !final(self).is_closed(),
            n == 0 ==> final(self).fault() == Some(IoFault::WriteZero)
                && final(self).delivered() == old(self).delivered()
                && final(self).pending() == old(self).pending(),
            n > 0 ==> final(self).fault().is_none()
                && final(self).delivered() == old(self).delivered()
                    + old(self).pending().subrange(0, n as int)
                && final(self).pending() == old(self).pending().subrange(
                    n as int,
                    old(self).pending().len() as int,
                ),
    {
        if n == 0 {
            self.fault = Some(IoFault::WriteZero);
        } else {
            let ghost first = self.pending@.subrange(0, n as int);
            let rest = self.pending.split_off(n);
            self.pending = rest;
            self.transferred = self.transferred + n as u64;
            proof {
                self.delivered@ = self.delivered@ + first;
                assert(self.received@ =~= self.delivered@ + self.pending@);
            }
        }
    }

    /// Reports that shutting down the sink's write half completed: `Ok` ends
    /// the direction successfully, an error ends it with that failure.
    pub fn on_shutdown(&mut self, r: Result<(), IoFault>)
        requires
            old(self).wf(),
            old(self).step() == RelayStep::Shutdown,
        ensures
            final(self).wf(),
            final(self).received() == old(self).received(),
            final(self).delivered() == old(self).delivered(),
            final(self).pending() == old(self).pending(),
            final(self).at_eof(),
            final(self).step() == RelayStep::Finished,
            r is Ok ==> final(self).is_closed() && final(self).fault().is_none(),
            r matches Err(f) ==> !final(self).is_closed() && final(self).fault() == Some(f),
    {
        match r {
            Ok(()) => {
                self.closed = true;
            },
            Err(f) => {
                self.fault = Some(f);
            },
        }
    }

    /// Reports that reading the source or writing the sink failed: the
    /// direction ends with that failure, and the bytes still pending are
    /// never delivered.
    pub fn on_error(&mut self, f: IoFault)
        requires
            old(self).wf(),
            old(self).step() == RelayStep::Read || old(self).step() == RelayStep::Write,
        ensures
            final(self).wf(),
            final(self).received() == old(self).received(),
            final(self).delivered() == old(self).delivered(),
            final(self).pending() == old(self).pending(),
            final(self).at_eof() == old(self).at_eof(),
            !final(self).is_closed(),
            final(self).fault() == Some(f),
            final(self).step() == RelayStep::Finished,
    {
        self.fault = Some(f);
    }

    /// What the direction reports: `None` while it runs, then the number of
    /// bytes written on success or the failure that ended it.
    pub fn outcome(&self) -> (r: Option<Result<u64, IoFault>>)
        requires
            self.wf(),
        ensures
            r == self.outcome_of(),
    {
        match self.fault {
            Some(f) => Some(Err(f)),
            None => if self.closed {
                Some(Ok(self.transferred))
            } else {
                None
            },
        }
    }
}

/// A direction that finished successfully wrote to its sink exactly the
/// bytes it read from its source, in order, and reports their number.
pub proof fn lemma_relay_delivers_all(r: &Relay)
    requires
        r.wf(),
        r.outcome_of() matches Some(Ok(_)),
    ensures
        r.delivered() == r.received(),
        r.received().len() <= u64::MAX,
        r.outcome_of() == Some(Ok::<u64, IoFault>(r.received().len() as u64)),
        r.at_eof(),
{
    assert(r.pending@ =~= Seq::<u8>::empty());
    assert(r.received@ =~= r.delivered@);
}

/// A direction never loses a byte silently: whatever it read is either
/// delivered or still held, so bytes are dropped only once it has failed.
pub proof fn lemma_relay_loses_nothing(r: &Relay)
    requires
        r.wf(),
    ensures
        r.received() == r.delivered() + r.pending(),
        r.fault().is_none() && r.step() != RelayStep::Write ==> r.delivered() == r.received(),
{
    if r.fault().is_none() && r.step() != RelayStep::Write {
        assert(r.pending@ =~= Seq::<u8>::empty());
    }
}

} // verus!
