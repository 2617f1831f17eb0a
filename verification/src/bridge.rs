//! Bidirectional bridge accounting.
//!
//! A bridge session pairs one local duplex stream with one remote stream and
//! copies bytes both ways, unmodified, until both directions reach
//! end-of-stream or an I/O error occurs. Before full copying starts, a first
//! read from the local side is raced against a fixed timeout.
//!
//! The process shell performs the reads and writes; this module decides what
//! each observed event means and accounts for every byte. The session keeps
//! a ghost transcript of the bytes read on each side and of the bytes handed
//! out for writing to the other, and its well-formedness ties the two
//! together: what is written to one side is exactly what was read from the
//! other, in order, and the counters are the transcript lengths.

use vstd::prelude::*;

verus! {

/// Size of the buffer for the first local read, in bytes.
pub const FIRST_READ_BUFFER_LEN: usize = 1024;

/// Budget for the first local read, in seconds.
pub const FIRST_BYTE_TIMEOUT_SECS: u64 = 5;

/// Why a bridge session ended with an error.
#[derive(Clone, Copy, PartialEq, Eq, Structural, Debug)]
pub enum BridgeError {
    /// The local side produced no bytes within the first-byte budget.
    Timeout,
    /// A read or write failed.
    Io,
}

/// What the first local read, raced against the timeout, observed.
pub enum FirstReadEvent {
    /// Bytes arrived before the timeout.
    Data(Vec<u8>),
    /// The local side closed before sending anything.
    Closed,
    /// The timeout fired first.
    TimedOut,
    /// The read failed.
    Failed,
}

/// What to do after the first local read.
pub enum FirstReadAction {
    /// Write exactly these bytes to the remote side, flush, then start the
    /// full-duplex copy.
    Forward(Vec<u8>),
    /// End the session cleanly with zero bytes transferred.
    FinishEmpty,
    /// Tear the session down; nothing was forwarded to either side.
    Abort(BridgeError),
}

/// Decides the outcome of the first local read. Data is forwarded
/// unchanged; a close before any byte ends the session cleanly; a timeout
/// or a failed read aborts it, and in neither case is anything forwarded.
pub fn first_read_action(event: FirstReadEvent) -> (r: FirstReadAction)
    ensures
        event matches FirstReadEvent::Data(b) ==> (r matches FirstReadAction::Forward(f) && f@
            == b@),
        event is Closed ==> r is FinishEmpty,
        event is TimedOut ==> r == FirstReadAction::Abort(BridgeError::Timeout),
        event is Failed ==> r == FirstReadAction::Abort(BridgeError::Io),
{
    match event {
        FirstReadEvent::Data(b) => FirstReadAction::Forward(b),
        FirstReadEvent::Closed => FirstReadAction::FinishEmpty,
        FirstReadEvent::TimedOut => FirstReadAction::Abort(BridgeError::Timeout),
        FirstReadEvent::Failed => FirstReadAction::Abort(BridgeError::Io),
    }
}

/// What a read on one side of the running copy observed.
pub enum CopyEvent {
    /// Bytes arrived.
    Data(Vec<u8>),
    /// This side reached end-of-stream.
    Eof,
    /// The read failed.
    Failed,
}

/// What to do after a read on one side of the running copy.
pub enum CopyAction {
    /// Write exactly these bytes to the opposite side.
    Write(Vec<u8>),
    /// Stop copying in this direction; the opposite direction goes on.
    CloseDirection,
    /// Tear the whole session down with an I/O error.
    Fail,
}

/// One bridge session: the two copy directions, their byte counters, and
/// the ghost transcripts that witness the bytes are moved unmodified.
pub struct BridgeSession {
    /// The local-to-remote direction has ended.
    pub local_done: bool,
    /// The remote-to-local direction has ended.
    pub remote_done: bool,
    /// A terminal I/O error ended the session.
    pub failed: bool,
    /// Bytes copied from the local to the remote side.
    pub to_remote: u64,
    /// Bytes copied from the remote to the local side.
    pub to_local: u64,
    /// Every byte read from the local side, in order.
    pub read_local: Ghost<Seq<u8>>,
    /// Every byte handed out for writing to the remote side, in order.
    pub written_remote: Ghost<Seq<u8>>,
    /// Every byte read from the remote side, in order.
    pub read_remote: Ghost<Seq<u8>>,
    /// Every byte handed out for writing to the local side, in order.
    pub written_local: Ghost<Seq<u8>>,
}

impl BridgeSession {
    /// Bridge integrity: each side is sent exactly the bytes read from the
    /// other, in order, and each counter is the length of its transcript.
    pub open spec fn wf(&self) -> bool {
        &&& self.written_remote@ == self.read_local@
        &&& self.written_local@ == self.read_remote@
        &&& self.to_remote == self.read_local@.len()
        &&& self.to_local == self.read_remote@.len()
    }

    /// Both directions have ended, so the session is complete.
    pub open spec fn spec_complete(&self) -> bool {
        self.local_done && self.remote_done
    }

    /// A fresh session: nothing copied, both directions open.
    pub fn new() -> (s: Self)
        ensures
            s.wf(),
            !s.local_done,
            !s.remote_done,
            !s.failed,
            s.to_remote == 0,
            s.to_local == 0,
            s.read_local@ == Seq::<u8>::empty(),
            s.read_remote@ == Seq::<u8>::empty(),
    {
        BridgeSession {
            local_done: false,
            remote_done: false,
            failed: false,
            to_remote: 0,
            to_local: 0,
            read_local: Ghost(Seq::empty()),
            written_remote: Ghost(Seq::empty()),
            read_remote: Ghost(Seq::empty()),
            written_local: Ghost(Seq::empty()),
        }
    }

    /// Accounts for one read on the local side. Data is handed back for
    /// writing to the remote side, byte for byte; end-of-stream ends only
    /// this direction; a failed read ends the session with an error.
    pub fn on_local_read(&mut self, event: CopyEvent) -> (r: CopyAction)
        requires
            old(self).wf(),
            !old(self).local_done,
            !old(self).failed,
            event matches CopyEvent::Data(b) ==> old(self).to_remote + b@.len() <= u64::MAX,
        ensures
            final(self).wf(),
            final(self).remote_done == old(self).remote_done,
            final(self).to_local == old(self).to_local,
            final(self).read_remote@ == old(self).read_remote@,
            event matches CopyEvent::Data(b) ==> ({
                &&& r matches CopyAction::Write(w) && w@ == b@
                &&& final(self).read_local@ == old(self).read_local@ + b@
                &&& final(self).to_remote == old(self).to_remote + b@.len()
                &&& !final(self).local_done
                &&& !final(self).failed
            }),
            event is Eof ==> ({
                &&& r is CloseDirection
                &&& final(self).local_done
                &&& !final(self).failed
                &&& final(self).read_local@ == old(self).read_local@
                &&& final(self).to_remote == old(self).to_remote
            }),
            event is Failed ==> ({
                &&& r is Fail
                &&& final(self).failed
                &&& final(self).read_local@ == old(self).read_local@
                &&& final(self).to_remote == old(self).to_remote
            }),
    {
        match event {
            CopyEvent::Data(b) => {
                self.read_local = Ghost(self.read_local@ + b@);
                self.written_remote = Ghost(self.written_remote@ + b@);
                self.to_remote = self.to_remote + b.len() as u64;
                CopyAction::Write(b)
            },
            CopyEvent::Eof => {
                self.local_done = true;
                CopyAction::CloseDirection
            },
            CopyEvent::Failed => {
                self.failed = true;
                CopyAction::Fail
            },
        }
    }

    /// Accounts for one read on the remote side, mirroring `on_local_read`.
    pub fn on_remote_read(&mut self, event: CopyEvent) -> (r: CopyAction)
        requires
            old(self).wf(),
            !old(self).remote_done,
            !old(self).failed,
            event matches CopyEvent::Data(b) ==> old(self).to_local + b@.len() <= u64::MAX,
        ensures
            final(self).wf(),
            final(self).local_done == old(self).local_done,
            final(self).to_remote == old(self).to_remote,
            final(self).read_local@ == old(self).read_local@,
            event matches CopyEvent::Data(b) ==> ({
                &&& r matches CopyAction::Write(w) && w@ == b@
                &&& final(self).read_remote@ == old(self).read_remote@ + b@
                &&& final(self).to_local == old(self).to_local + b@.len()
                &&& !final(self).remote_done
                &&& !final(self).failed
            }),
            event is Eof ==> ({
                &&& r is CloseDirection
                &&& final(self).remote_done
                &&& !final(self).failed
                &&& final(self).read_remote@ == old(self).read_remote@
                &&& final(self).to_local == old(self).to_local
            }),
            event is Failed ==> ({
                &&& r is Fail
                &&& final(self).failed
                &&& final(self).read_remote@ == old(self).read_remote@
                &&& final(self).to_local == old(self).to_local
            }),
    {
        match event {
            CopyEvent::Data(b) => {
                self.read_remote = Ghost(self.read_remote@ + b@);
                self.written_local = Ghost(self.written_local@ + b@);
                self.to_local = self.to_local + b.len() as u64;
                CopyAction::Write(b)
            },
            CopyEvent::Eof => {
                self.remote_done = true;
                CopyAction::CloseDirection
            },
            CopyEvent::Failed => {
                self.failed = true;
                CopyAction::Fail
            },
        }
    }

    /// Whether both directions have ended.
    pub fn is_complete(&self) -> (r: bool)
        ensures
            r == self.spec_complete(),
    {
        self.local_done && self.remote_done
    }

    /// The byte counts of the two directions, local-to-remote first.
    pub fn counts(&self) -> (r: (u64, u64))
        ensures
            r.0 == self.to_remote,
            r.1 == self.to_local,
    {
        (self.to_remote, self.to_local)
    }
}

/// Bridge integrity: in a well-formed session the bytes handed out for each
/// side are exactly the bytes read from the other, in order, and the
/// reported counts are their totals.
pub proof fn lemma_bridge_integrity(s: BridgeSession)
    requires
        s.wf(),
    ensures
        s.written_remote@ == s.read_local@,
        s.written_local@ == s.read_remote@,
        s.to_remote == s.read_local@.len(),
        s.to_local == s.read_remote@.len(),
{
}

} // verus!
