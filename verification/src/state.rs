//! Connection lifecycle states and the readiness interests they register.

use vstd::prelude::*;

verus! {

/// The lifecycle of one connection's request state machine.
#[derive(Clone, Copy, PartialEq, Eq, Structural, Debug)]
pub enum State {
    /// Freshly opened socket, no request pulled from the queue yet.
    Connecting,
    /// A request is being written to the socket.
    Writing,
    /// The request is fully flushed; its response has not yet been parsed.
    AwaitingResponse,
    /// Fatal socket or protocol error; the slot is reusable.
    Closed,
}

/// The readiness a connection asks the event loop to watch for next.
/// Registration is edge-triggered and one-shot: after every dispatched event
/// exactly this interest is re-registered, never an implicit one.
#[derive(Clone, Copy, PartialEq, Eq, Structural, Debug)]
pub enum Interest {
    Writable,
    Readable,
}

} // verus!
