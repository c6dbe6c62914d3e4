//! The per-socket request state machine: pull a request from the work
//! queue, write it, await and parse the response, emit one measurement per
//! attempt, repeat. The socket itself and the protocol parser live outside;
//! events arrive here as plain values and every transition is exact.

use crate::queue::WorkQueue;
use crate::state::{Interest, State};
use crate::stats::{Measurement, Outcome};
use vstd::pervasive::unreached;
use vstd::prelude::*;

verus! {

/// What the protocol parser reported for the bytes read so far: it needs
/// more data, it parsed one complete response (classified as a success or a
/// protocol-level error), or the data is malformed.
#[derive(Clone, Copy, PartialEq, Eq, Structural, Debug)]
pub enum ParseResult {
    Incomplete,
    Complete { success: bool },
    Malformed,
}

/// One connection: a stable slot in its worker's table, the request being
/// transmitted (if any), and the timestamp the in-flight request finished
/// writing at.
pub struct Connection {
    /// Index into the owning worker's connection table; stable for the
    /// connection's whole life.
    pub slot: usize,
    pub state: State,
    /// The request currently being transmitted, owned exclusively until
    /// fully flushed, then discarded.
    pub item: Option<Vec<u8>>,
    /// How many bytes of `item` the socket has accepted so far.
    pub written: usize,
    /// When the in-flight request finished writing (valid while awaiting
    /// its response).
    pub send_ts: u64,
}

impl Connection {
    pub open spec fn wf(&self) -> bool {
        match self.state {
            State::Connecting => self.item is None && self.written == 0,
            State::Writing => self.item matches Some(i) && self.written <= i@.len(),
            State::AwaitingResponse => self.item is None && self.written == 0,
            State::Closed => self.item is None && self.written == 0,
        }
    }

    /// The one interest this connection re-registers after an event, or
    /// nothing for a closed connection.
    pub open spec fn spec_interest(&self) -> Option<Interest> {
        match self.state {
            State::Connecting => Some(Interest::Writable),
            State::Writing => Some(Interest::Writable),
            State::AwaitingResponse => Some(Interest::Readable),
            State::Closed => None,
        }
    }

    pub fn interest(&self) -> (r: Option<Interest>)
        ensures
            r == self.spec_interest(),
    {
        match self.state {
            State::Connecting => Some(Interest::Writable),
            State::Writing => Some(Interest::Writable),
            State::AwaitingResponse => Some(Interest::Readable),
            State::Closed => None,
        }
    }

    /// What a just-opened connection looks like.
    pub open spec fn spec_fresh(slot: usize) -> Connection {
        Connection { slot, state: State::Connecting, item: None, written: 0, send_ts: 0 }
    }

    /// A connection over a freshly opened socket, registered for writable
    /// readiness.
    pub fn new(slot: usize) -> (c: Connection)
        ensures
            c == Connection::spec_fresh(slot),
            c.wf(),
            c.spec_interest() == Some(Interest::Writable),
    {
        Connection { slot, state: State::Connecting, item: None, written: 0, send_ts: 0 }
    }

    /// First writable readiness, or a retry after an empty queue: attempt a
    /// non-blocking dequeue. An empty queue is a transient condition — the
    /// connection stays registered writable and retries on the next tick.
    pub fn refill(&mut self, queue: &mut WorkQueue) -> (got: bool)
        requires
            old(self).wf(),
            old(self).state == State::Connecting,
            old(queue).wf(),
        ensures
            final(self).wf(),
            final(queue).wf(),
            final(queue).capacity() == old(queue).capacity(),
            refill_post(*old(self), old(queue)@, *final(self), final(queue)@, got),
            final(self).spec_interest() == Some(Interest::Writable),
    {
        match queue.pop() {
            Some(item) => {
                self.state = State::Writing;
                self.item = Some(item);
                self.written = 0;
                true
            },
            None => false,
        }
    }

    /// The bytes of the current request that the socket has not yet
    /// accepted.
    pub fn unwritten(&self) -> (r: &[u8])
        requires
            self.wf(),
            self.state == State::Writing,
        ensures
            r@ == self.item->Some_0@.subrange(
                self.written as int,
                self.item->Some_0@.len() as int,
            ),
    {
        match &self.item {
            Some(i) => vstd::slice::slice_subrange(i.as_slice(), self.written, i.len()),
            None => unreached(),
        }
    }

    /// The socket accepted `n` more bytes of the current request. On full
    /// flush the request is discarded, `now` becomes its send timestamp and
    /// interest turns readable; otherwise the connection stays writable.
    pub fn advance_write(&mut self, n: usize, now: u64)
        requires
            old(self).wf(),
            old(self).state == State::Writing,
            old(self).written + n <= old(self).item->Some_0@.len(),
        ensures
            final(self).wf(),
            write_post(*old(self), n as int, now, *final(self)),
            final(self).spec_interest() == (if old(self).written + n == old(
                self,
            ).item->Some_0@.len() {
                Some(Interest::Readable)
            } else {
                Some(Interest::Writable)
            }),
    {
        let len = match &self.item {
            Some(i) => i.len(),
            None => unreached(),
        };
        if self.written + n == len {
            self.item = None;
            self.written = 0;
            self.send_ts = now;
            self.state = State::AwaitingResponse;
        } else {
            self.written = self.written + n;
        }
    }

    /// Readable readiness: the bytes read were fed to the protocol parser,
    /// which reported `parse`. A complete response yields this request's
    /// measurement, and the connection immediately tries to refill from the
    /// queue (falling back to the retry state when the queue is momentarily
    /// empty); malformed data closes the connection with an error outcome.
    pub fn on_readable(&mut self, parse: ParseResult, now: u64, queue: &mut WorkQueue) -> (m:
        Option<Measurement>)
        requires
            old(self).wf(),
            old(self).state == State::AwaitingResponse,
            old(queue).wf(),
            now >= old(self).send_ts,
        ensures
            final(self).wf(),
            final(queue).wf(),
            final(queue).capacity() == old(queue).capacity(),
            read_post(*old(self), parse, now, old(queue)@, *final(self), final(queue)@, m),
            (m matches Some(mm) ==> mm.wf()),
    {
        match parse {
            ParseResult::Incomplete => None,
            ParseResult::Complete { success } => {
                let outcome = if success {
                    Outcome::Success
                } else {
                    Outcome::ProtocolError
                };
                let m = Measurement { send_ts: self.send_ts, complete_ts: now, outcome };
                match queue.pop() {
                    Some(item) => {
                        self.state = State::Writing;
                        self.item = Some(item);
                        self.written = 0;
                    },
                    None => {
                        self.state = State::Connecting;
                    },
                }
                Some(m)
            },
            ParseResult::Malformed => {
                let m = Measurement {
                    send_ts: self.send_ts,
                    complete_ts: now,
                    outcome: Outcome::ProtocolError,
                };
                self.state = State::Closed;
                Some(m)
            },
        }
    }

    /// A socket error, reset or hangup: the connection closes and its slot
    /// becomes reusable. A request attempt in flight (being written, or
    /// awaiting its response) yields exactly one connection-error
    /// measurement; an idle connection yields none.
    pub fn on_error(&mut self, now: u64) -> (m: Option<Measurement>)
        requires
            old(self).wf(),
            old(self).state == State::AwaitingResponse ==> now >= old(self).send_ts,
        ensures
            final(self).wf(),
            error_post(*old(self), now, *final(self), m),
            final(self).spec_interest() is None,
            (m matches Some(mm) ==> mm.wf()),
    {
        let m = match self.state {
            State::AwaitingResponse => Some(
                Measurement {
                    send_ts: self.send_ts,
                    complete_ts: now,
                    outcome: Outcome::ConnectionError,
                },
            ),
            State::Writing => Some(
                Measurement { send_ts: now, complete_ts: now, outcome: Outcome::ConnectionError },
            ),
            State::Connecting => None,
            State::Closed => None,
        };
        self.state = State::Closed;
        self.item = None;
        self.written = 0;
        m
    }
}

/// Relates a connection and the queue across a refill attempt: the oldest
/// pending payload (if any) becomes the connection's current request; an
/// empty queue leaves both untouched.
pub open spec fn refill_post(
    pre: Connection,
    qpre: Seq<Seq<u8>>,
    post: Connection,
    qpost: Seq<Seq<u8>>,
    got: bool,
) -> bool {
    if qpre.len() == 0 {
        !got && post == pre && qpost == qpre
    } else {
        &&& got
        &&& qpost == qpre.drop_first()
        &&& post.state == State::Writing
        &&& (post.item matches Some(i) && i@ == qpre[0])
        &&& post.written == 0
        &&& post.slot == pre.slot
        &&& post.send_ts == pre.send_ts
    }
}

/// Relates a connection across a write of `n` bytes at time `now`: either
/// the request is fully flushed (send timestamp recorded, awaiting the
/// response) or the write continues where it stopped.
pub open spec fn write_post(pre: Connection, n: int, now: u64, post: Connection) -> bool {
    if pre.written + n == pre.item->Some_0@.len() {
        &&& post.state == State::AwaitingResponse
        &&& post.item is None
        &&& post.written == 0
        &&& post.send_ts == now
        &&& post.slot == pre.slot
    } else {
        &&& post.state == State::Writing
        &&& post.item == pre.item
        &&& post.written == pre.written + n
        &&& post.send_ts == pre.send_ts
        &&& post.slot == pre.slot
    }
}

/// Relates a connection, the queue and the emitted measurement across one
/// parser report: a complete response is measured against this request's
/// own send timestamp and the connection refills; malformed data closes it
/// with a protocol-error measurement; incomplete data changes nothing.
pub open spec fn read_post(
    pre: Connection,
    parse: ParseResult,
    now: u64,
    qpre: Seq<Seq<u8>>,
    post: Connection,
    qpost: Seq<Seq<u8>>,
    m: Option<Measurement>,
) -> bool {
    match parse {
        ParseResult::Incomplete => post == pre && qpost == qpre && m is None,
        ParseResult::Complete { success } => {
            &&& (m matches Some(mm) && mm.send_ts == pre.send_ts && mm.complete_ts == now
                && mm.outcome == (if success {
                Outcome::Success
            } else {
                Outcome::ProtocolError
            }))
            &&& (if qpre.len() == 0 {
                qpost == qpre && post.state == State::Connecting && post.item is None
                    && post.written == 0
            } else {
                qpost == qpre.drop_first() && post.state == State::Writing && (post.item matches
                Some(i) && i@ == qpre[0]) && post.written == 0
            })
            &&& post.slot == pre.slot
            &&& post.send_ts == pre.send_ts
        },
        ParseResult::Malformed => {
            &&& (m matches Some(mm) && mm.send_ts == pre.send_ts && mm.complete_ts == now
                && mm.outcome == Outcome::ProtocolError)
            &&& post.state == State::Closed
            &&& post.item is None
            &&& post.written == 0
            &&& qpost == qpre
            &&& post.slot == pre.slot
            &&& post.send_ts == pre.send_ts
        },
    }
}

/// Relates a connection and the emitted measurement across a socket error:
/// the connection closes, and a request attempt that was in flight yields
/// exactly one connection-error measurement.
pub open spec fn error_post(pre: Connection, now: u64, post: Connection, m: Option<
    Measurement,
>) -> bool {
    &&& post.state == State::Closed
    &&& post.item is None
    &&& post.written == 0
    &&& post.slot == pre.slot
    &&& post.send_ts == pre.send_ts
    &&& match pre.state {
        State::AwaitingResponse => (m matches Some(mm) && mm.send_ts == pre.send_ts
            && mm.complete_ts == now && mm.outcome == Outcome::ConnectionError),
        State::Writing => (m matches Some(mm) && mm.send_ts == now && mm.complete_ts == now
            && mm.outcome == Outcome::ConnectionError),
        State::Connecting => m is None,
        State::Closed => m is None,
    }
}

} // verus!
