//! The bounded work queue: pre-encoded request payloads travel from the
//! workload generators to the connections through it. Producers see a full
//! queue as backpressure (the item comes back, never silently dropped);
//! consumers see an empty queue as a transient condition, not an error.

use std::collections::VecDeque;
use vstd::prelude::*;

verus! {

/// A bounded FIFO of pre-encoded request payloads. The occupied size never
/// exceeds the capacity the queue was created with.
pub struct WorkQueue {
    items: VecDeque<Vec<u8>>,
    capacity: usize,
}

impl View for WorkQueue {
    type V = Seq<Seq<u8>>;

    closed spec fn view(&self) -> Seq<Seq<u8>> {
        self.items.deep_view()
    }
}

impl WorkQueue {
    /// The capacity the queue was created with.
    pub closed spec fn capacity(&self) -> nat {
        self.capacity as nat
    }

    /// The occupied size never exceeds the capacity.
    pub closed spec fn wf(&self) -> bool {
        self@.len() <= self.capacity() && self.capacity() >= 1
    }

    pub fn new(capacity: usize) -> (q: WorkQueue)
        requires
            capacity >= 1,
        ensures
            q.wf(),
            q@ == Seq::<Seq<u8>>::empty(),
            q.capacity() == capacity,
    {
        let q = WorkQueue { items: VecDeque::new(), capacity };
        proof {
            assert(q@ =~= Seq::<Seq<u8>>::empty());
        }
        q
    }

    pub fn len(&self) -> (n: usize)
        ensures
            n == self@.len(),
    {
        self.items.len()
    }

    pub fn is_empty(&self) -> (r: bool)
        ensures
            r == (self@.len() == 0),
    {
        self.items.len() == 0
    }

    /// Offers one payload. A full queue refuses it and hands it back, so the
    /// producer can apply backpressure; it is never dropped silently.
    pub fn push(&mut self, item: Vec<u8>) -> (r: Result<(), Vec<u8>>)
        requires
            old(self).wf(),
        ensures
            final(self).wf(),
            final(self).capacity() == old(self).capacity(),
            old(self)@.len() < old(self).capacity() ==> r is Ok && final(self)@ == old(
                self,
            )@.push(item@),
            old(self)@.len() >= old(self).capacity() ==> (r matches Err(back) && back == item)
                && final(self)@ == old(self)@,
    {
        if self.items.len() < self.capacity {
            self.items.push_back(item);
            proof {
                assert(self@ =~~= old(self)@.push(item@));
            }
            Ok(())
        } else {
            Err(item)
        }
    }

    /// Non-blocking dequeue. An empty queue yields `None`; otherwise the
    /// oldest payload leaves the queue.
    pub fn pop(&mut self) -> (r: Option<Vec<u8>>)
        requires
            old(self).wf(),
        ensures
            final(self).wf(),
            final(self).capacity() == old(self).capacity(),
            old(self)@.len() == 0 ==> r is None && final(self)@ == old(self)@,
            old(self)@.len() > 0 ==> (r matches Some(v) && v@ == old(self)@[0]) && final(self)@
                == old(self)@.drop_first(),
    {
        let r = self.items.pop_front();
        proof {
            if old(self)@.len() > 0 {
                assert(self@ =~~= old(self)@.drop_first());
                assert(r->Some_0@ =~= old(self)@[0]);
            }
        }
        r
    }
}

/// One step of the queue's life, as a producer or a consumer sees it.
pub enum QueueOp {
    Push(Seq<u8>),
    Pop,
}

/// The queue's abstract history: what is pending inside it, which pushes it
/// accepted, and what its pops handed out, in order.
pub struct QueueHistory {
    pub pending: Seq<Seq<u8>>,
    pub accepted: Seq<Seq<u8>>,
    pub popped: Seq<Seq<u8>>,
}

/// How one operation moves the history, mirroring the contracts of `push`
/// and `pop`: a push onto a full queue is refused, a pop from an empty
/// queue yields nothing.
pub open spec fn queue_step(cap: nat, h: QueueHistory, op: QueueOp) -> QueueHistory {
    match op {
        QueueOp::Push(b) => {
            if h.pending.len() < cap {
                QueueHistory {
                    pending: h.pending.push(b),
                    accepted: h.accepted.push(b),
                    popped: h.popped,
                }
            } else {
                h
            }
        },
        QueueOp::Pop => {
            if h.pending.len() > 0 {
                QueueHistory {
                    pending: h.pending.drop_first(),
                    accepted: h.accepted,
                    popped: h.popped.push(h.pending[0]),
                }
            } else {
                h
            }
        },
    }
}

/// The history after a whole sequence of operations on an initially empty
/// queue of capacity `cap`.
pub open spec fn queue_run(cap: nat, ops: Seq<QueueOp>) -> QueueHistory
    decreases ops.len(),
{
    if ops.len() == 0 {
        QueueHistory {
            pending: Seq::empty(),
            accepted: Seq::empty(),
            popped: Seq::empty(),
        }
    } else {
        queue_step(cap, queue_run(cap, ops.drop_last()), ops.last())
    }
}

/// The step relation mirrors the executable operations exactly: from any
/// history whose pending part matches the queue, a push step lands on the
/// queue `push` leaves behind, and a pop step on the queue `pop` leaves
/// behind.
pub proof fn lemma_step_mirrors_push(cap: nat, h: QueueHistory, pre: Seq<Seq<u8>>, post: Seq<
    Seq<u8>,
>, item: Seq<u8>)
    requires
        h.pending == pre,
        pre.len() < cap ==> post == pre.push(item),
        pre.len() >= cap ==> post == pre,
    ensures
        queue_step(cap, h, QueueOp::Push(item)).pending == post,
{
}

pub proof fn lemma_step_mirrors_pop(cap: nat, h: QueueHistory, pre: Seq<Seq<u8>>, post: Seq<
    Seq<u8>,
>)
    requires
        h.pending == pre,
        pre.len() == 0 ==> post == pre,
        pre.len() > 0 ==> post == pre.drop_first(),
    ensures
        queue_step(cap, h, QueueOp::Pop).pending == post,
{
}

/// Law: for every sequence of pushes and pops, the queue's occupied size
/// never exceeds its capacity, and what the pops handed out followed by what
/// is still pending is exactly the sequence of accepted pushes — so a pop
/// never returns an item that was not pushed, never duplicates one, and
/// never reorders them.
pub proof fn lemma_queue_bounded_and_faithful(cap: nat, ops: Seq<QueueOp>)
    ensures
        queue_run(cap, ops).pending.len() <= cap,
        queue_run(cap, ops).popped + queue_run(cap, ops).pending =~= queue_run(cap, ops).accepted,
    decreases ops.len(),
{
    if ops.len() == 0 {
    } else {
        let prev = queue_run(cap, ops.drop_last());
        lemma_queue_bounded_and_faithful(cap, ops.drop_last());
        match ops.last() {
            QueueOp::Push(b) => {
                if prev.pending.len() < cap {
                    assert(prev.popped + prev.pending.push(b) =~= prev.accepted.push(b)) by {
                        assert(prev.popped + prev.pending =~= prev.accepted);
                    }
                }
            },
            QueueOp::Pop => {
                if prev.pending.len() > 0 {
                    assert(prev.popped.push(prev.pending[0]) + prev.pending.drop_first()
                        =~= prev.accepted) by {
                        assert(prev.popped + prev.pending =~= prev.accepted);
                    }
                }
            },
        }
    }
}

} // verus!
