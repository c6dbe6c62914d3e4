//! One worker's view of the world: an indexed table of connections that
//! readiness notifications are dispatched into by stable slot, and the
//! startup tally that decides whether the worker may run at all.

use crate::connection::{error_post, read_post, refill_post, write_post};
use crate::connection::{Connection, ParseResult};
use crate::queue::WorkQueue;
use crate::state::State;
use crate::stats::Measurement;
use vstd::pervasive::unreached;
use vstd::prelude::*;

verus! {

/// A worker's connection table: slot `i` is owned by at most one live
/// connection at a time, and a slot is reused only after explicit removal.
pub struct ConnTable {
    pub slots: Vec<Option<Connection>>,
}

impl ConnTable {
    /// Every occupant is well-formed and knows its own slot.
    pub open spec fn slot_ok(&self, i: int) -> bool {
        match self.slots@[i] {
            Some(c) => c.wf() && c.slot == i,
            None => true,
        }
    }

    pub open spec fn wf(&self) -> bool {
        forall|i: int| 0 <= i < self.slots@.len() ==> #[trigger] self.slot_ok(i)
    }

    /// An empty table with `capacity` reusable slots.
    pub fn new(capacity: usize) -> (t: ConnTable)
        ensures
            t.wf(),
            t.slots@.len() == capacity,
            forall|i: int| 0 <= i < capacity ==> t.slots@[i] is None,
    {
        let mut slots: Vec<Option<Connection>> = Vec::new();
        while slots.len() < capacity
            invariant
                slots@.len() <= capacity,
                forall|i: int| 0 <= i < slots@.len() ==> slots@[i] is None,
            decreases capacity - slots@.len(),
        {
            slots.push(None);
        }
        ConnTable { slots }
    }

    /// The occupant of a slot, for inspection.
    pub fn get(&self, slot: usize) -> (r: &Option<Connection>)
        requires
            slot < self.slots@.len(),
        ensures
            *r == self.slots@[slot as int],
    {
        &self.slots[slot]
    }

    pub fn capacity(&self) -> (n: usize)
        ensures
            n == self.slots@.len(),
    {
        self.slots.len()
    }

    /// Opens a fresh connection in the first free slot, if any. `None`
    /// means every slot is taken: too many established connections.
    pub fn insert(&mut self) -> (r: Option<usize>)
        requires
            old(self).wf(),
        ensures
            final(self).wf(),
            final(self).slots@.len() == old(self).slots@.len(),
            (r matches Some(i) ==> {
                &&& i < old(self).slots@.len()
                &&& old(self).slots@[i as int] is None
                &&& forall|j: int| 0 <= j < i ==> old(self).slots@[j] is Some
                &&& (final(self).slots@[i as int] matches Some(c) && c == Connection::spec_fresh(
                    i as usize,
                ))
                &&& forall|j: int|
                    0 <= j < old(self).slots@.len() && j != i ==> final(self).slots@[j] == old(
                        self,
                    ).slots@[j]
            }),
            r is None ==> *final(self) == *old(self) && forall|j: int|
                0 <= j < old(self).slots@.len() ==> old(self).slots@[j] is Some,
    {
        let n = self.slots.len();
        let mut i: usize = 0;
        while i < n
            invariant
                old(self).wf(),
                *self == *old(self),
                i <= n,
                n == self.slots@.len(),
                forall|j: int| 0 <= j < i ==> self.slots@[j] is Some,
            decreases n - i,
        {
            if self.slots[i].is_none() {
                let c = Connection::new(i);
                let _ = self.slots.remove(i);
                self.slots.insert(i, Some(c));
                proof {
                    assert(self.slots@ =~= old(self).slots@.update(i as int, Some(c)));
                    assert forall|k: int| 0 <= k < self.slots@.len() implies self.slot_ok(k) by {
                        assert(old(self).slot_ok(k));
                    }
                }
                return Some(i);
            }
            i = i + 1;
        }
        None
    }

    /// Frees a slot after its connection closed; the occupant (if any)
    /// leaves the table and the slot may be reused.
    pub fn remove(&mut self, slot: usize) -> (c: Option<Connection>)
        requires
            old(self).wf(),
            slot < old(self).slots@.len(),
        ensures
            final(self).wf(),
            final(self).slots@.len() == old(self).slots@.len(),
            c == old(self).slots@[slot as int],
            final(self).slots@[slot as int] is None,
            forall|j: int|
                0 <= j < old(self).slots@.len() && j != slot ==> final(self).slots@[j] == old(
                    self,
                ).slots@[j],
    {
        let c = self.slots.remove(slot);
        self.slots.insert(slot, None);
        proof {
            assert(self.slots@ =~= old(self).slots@.update(slot as int, None));
            assert forall|k: int| 0 <= k < self.slots@.len() implies self.slot_ok(k) by {
                assert(old(self).slot_ok(k));
            }
        }
        c
    }

    /// Dispatches writable readiness to a connection still waiting for its
    /// first (or next) request: it attempts a non-blocking dequeue.
    pub fn deliver_writable(&mut self, slot: usize, queue: &mut WorkQueue) -> (got: bool)
        requires
            old(self).wf(),
            slot < old(self).slots@.len(),
            old(self).slots@[slot as int] matches Some(c) && c.state == State::Connecting,
            old(queue).wf(),
        ensures
            final(self).wf(),
            final(queue).wf(),
            final(queue).capacity() == old(queue).capacity(),
            final(self).slots@.len() == old(self).slots@.len(),
            final(self).slots@[slot as int] is Some,
            refill_post(
                old(self).slots@[slot as int]->Some_0,
                old(queue)@,
                final(self).slots@[slot as int]->Some_0,
                final(queue)@,
                got,
            ),
            forall|j: int|
                0 <= j < old(self).slots@.len() && j != slot ==> final(self).slots@[j] == old(
                    self,
                ).slots@[j],
    {
        let mut c = match self.slots.remove(slot) {
            Some(c) => c,
            None => unreached(),
        };
        proof {
            assert(old(self).slot_ok(slot as int));
        }
        let got = c.refill(queue);
        self.slots.insert(slot, Some(c));
        proof {
            assert(self.slots@ =~= old(self).slots@.update(slot as int, Some(c)));
            assert forall|k: int| 0 <= k < self.slots@.len() implies self.slot_ok(k) by {
                assert(old(self).slot_ok(k));
            }
        }
        got
    }

    /// Reports to a writing connection that the socket accepted `n` more
    /// bytes of its request.
    pub fn deliver_wrote(&mut self, slot: usize, n: usize, now: u64)
        requires
            old(self).wf(),
            slot < old(self).slots@.len(),
            old(self).slots@[slot as int] matches Some(c) && c.state == State::Writing && c.written
                + n <= c.item->Some_0@.len(),
        ensures
            final(self).wf(),
            final(self).slots@.len() == old(self).slots@.len(),
            final(self).slots@[slot as int] is Some,
            write_post(
                old(self).slots@[slot as int]->Some_0,
                n as int,
                now,
                final(self).slots@[slot as int]->Some_0,
            ),
            forall|j: int|
                0 <= j < old(self).slots@.len() && j != slot ==> final(self).slots@[j] == old(
                    self,
                ).slots@[j],
    {
        let mut c = match self.slots.remove(slot) {
            Some(c) => c,
            None => unreached(),
        };
        proof {
            assert(old(self).slot_ok(slot as int));
        }
        c.advance_write(n, now);
        self.slots.insert(slot, Some(c));
        proof {
            assert(self.slots@ =~= old(self).slots@.update(slot as int, Some(c)));
            assert forall|k: int| 0 <= k < self.slots@.len() implies self.slot_ok(k) by {
                assert(old(self).slot_ok(k));
            }
        }
    }

    /// Dispatches readable readiness: the parser's report for the bytes
    /// read, with the measurement (if a response completed or the data was
    /// malformed) handed back for the stats channel.
    pub fn deliver_readable(
        &mut self,
        slot: usize,
        parse: ParseResult,
        now: u64,
        queue: &mut WorkQueue,
    ) -> (m: Option<Measurement>)
        requires
            old(self).wf(),
            slot < old(self).slots@.len(),
            old(self).slots@[slot as int] matches Some(c) && c.state == State::AwaitingResponse
                && now >= c.send_ts,
            old(queue).wf(),
        ensures
            final(self).wf(),
            final(queue).wf(),
            final(queue).capacity() == old(queue).capacity(),
            final(self).slots@.len() == old(self).slots@.len(),
            final(self).slots@[slot as int] is Some,
            read_post(
                old(self).slots@[slot as int]->Some_0,
                parse,
                now,
                old(queue)@,
                final(self).slots@[slot as int]->Some_0,
                final(queue)@,
                m,
            ),
            (m matches Some(mm) ==> mm.wf()),
            forall|j: int|
                0 <= j < old(self).slots@.len() && j != slot ==> final(self).slots@[j] == old(
                    self,
                ).slots@[j],
    {
        let mut c = match self.slots.remove(slot) {
            Some(c) => c,
            None => unreached(),
        };
        proof {
            assert(old(self).slot_ok(slot as int));
        }
        let m = c.on_readable(parse, now, queue);
        self.slots.insert(slot, Some(c));
        proof {
            assert(self.slots@ =~= old(self).slots@.update(slot as int, Some(c)));
            assert forall|k: int| 0 <= k < self.slots@.len() implies self.slot_ok(k) by {
                assert(old(self).slot_ok(k));
            }
        }
        m
    }

    /// Dispatches a socket error: the connection closes, its slot is freed
    /// for reuse, and a request attempt in flight yields one
    /// connection-error measurement.
    pub fn deliver_error(&mut self, slot: usize, now: u64) -> (m: Option<Measurement>)
        requires
            old(self).wf(),
            slot < old(self).slots@.len(),
            old(self).slots@[slot as int] matches Some(c) && (c.state == State::AwaitingResponse
                ==> now >= c.send_ts),
        ensures
            final(self).wf(),
            final(self).slots@.len() == old(self).slots@.len(),
            final(self).slots@[slot as int] is None,
            error_post(
                old(self).slots@[slot as int]->Some_0,
                now,
                Connection {
                    state: State::Closed,
                    item: None,
                    written: 0,
                    ..old(self).slots@[slot as int]->Some_0
                },
                m,
            ),
            (m matches Some(mm) ==> mm.wf()),
            forall|j: int|
                0 <= j < old(self).slots@.len() && j != slot ==> final(self).slots@[j] == old(
                    self,
                ).slots@[j],
    {
        let mut c = match self.slots.remove(slot) {
            Some(c) => c,
            None => unreached(),
        };
        proof {
            assert(old(self).slot_ok(slot as int));
        }
        let m = c.on_error(now);
        self.slots.insert(slot, None);
        proof {
            assert(self.slots@ =~= old(self).slots@.update(slot as int, None));
            assert forall|k: int| 0 <= k < self.slots@.len() implies self.slot_ok(k) by {
                assert(old(self).slot_ok(k));
            }
        }
        m
    }
}

/// How many of a worker's initial connection attempts succeeded and how
/// many failed. Partial failure is tolerated and merely logged; total
/// failure is fatal for the whole process.
pub struct StartupTally {
    pub connects: u64,
    pub failures: u64,
}

impl StartupTally {
    pub fn new() -> (t: StartupTally)
        ensures
            t.connects == 0,
            t.failures == 0,
    {
        StartupTally { connects: 0, failures: 0 }
    }

    pub fn record_connect(&mut self)
        requires
            old(self).connects < u64::MAX,
        ensures
            final(self).connects == old(self).connects + 1,
            final(self).failures == old(self).failures,
    {
        self.connects = self.connects + 1;
    }

    pub fn record_failure(&mut self)
        requires
            old(self).failures < u64::MAX,
        ensures
            final(self).failures == old(self).failures + 1,
            final(self).connects == old(self).connects,
    {
        self.failures = self.failures + 1;
    }

    /// Fail fast only on total connectivity loss: the worker is worthless
    /// exactly when every one of its requested connection attempts failed,
    /// and then the whole process must exit with a non-zero status before
    /// any event is dispatched.
    pub fn all_failed(&self, requested: u64) -> (r: bool)
        ensures
            r == (self.failures == requested),
    {
        self.failures == requested
    }
}

/// How many entries of `s` are true.
pub open spec fn count_true(s: Seq<bool>) -> int
    decreases s.len(),
{
    if s.len() == 0 {
        0
    } else {
        count_true(s.drop_last()) + (if s.last() {
            1int
        } else {
            0int
        })
    }
}

pub proof fn lemma_count_true_bounds(s: Seq<bool>)
    ensures
        0 <= count_true(s) <= s.len(),
    decreases s.len(),
{
    if s.len() > 0 {
        lemma_count_true_bounds(s.drop_last());
    }
}

/// Builds a worker's table from the outcomes of its initial connection
/// attempts: each success occupies the next free slot, each failure is
/// tallied. Exactly the first `connects` slots end up occupied, each by a
/// fresh connection registered for writable readiness.
pub fn setup_worker(attempt_ok: &Vec<bool>) -> (r: (ConnTable, StartupTally))
    ensures
        r.0.wf(),
        r.0.slots@.len() == attempt_ok@.len(),
        r.1.connects == count_true(attempt_ok@),
        r.1.failures == attempt_ok@.len() - count_true(attempt_ok@),
        forall|j: int|
            0 <= j < r.1.connects ==> ((#[trigger] r.0.slots@[j]) matches Some(c) && c
                == Connection::spec_fresh(j as usize)),
        forall|j: int| r.1.connects <= j < attempt_ok@.len() ==> r.0.slots@[j] is None,
{
    let n = attempt_ok.len();
    let mut table = ConnTable::new(n);
    let mut tally = StartupTally::new();
    let mut i: usize = 0;
    while i < n
        invariant
            n == attempt_ok@.len(),
            i <= n,
            table.wf(),
            table.slots@.len() == n,
            tally.connects == count_true(attempt_ok@.take(i as int)),
            tally.failures == i - count_true(attempt_ok@.take(i as int)),
            forall|j: int|
                0 <= j < tally.connects ==> ((#[trigger] table.slots@[j]) matches Some(c) && c
                    == Connection::spec_fresh(j as usize)),
            forall|j: int| tally.connects <= j < n ==> table.slots@[j] is None,
        decreases n - i,
    {
        proof {
            lemma_count_true_bounds(attempt_ok@.take(i as int));
            assert(attempt_ok@.take(i + 1).drop_last() =~= attempt_ok@.take(i as int));
            assert(attempt_ok@.take(i + 1).last() == attempt_ok@[i as int]);
        }
        if attempt_ok[i] {
            let ghost pre_slots = table.slots@;
            let ghost c_pre = tally.connects as int;
            proof {
                assert(pre_slots[c_pre] is None);
            }
            let slot = match table.insert() {
                Some(s) => s,
                None => unreached(),
            };
            proof {
                if (slot as int) < c_pre {
                    assert(pre_slots[slot as int] is Some);
                    assert(false);
                }
                if (slot as int) > c_pre {
                    assert(pre_slots[c_pre] is Some);
                    assert(false);
                }
                assert(slot == tally.connects);
            }
            tally.record_connect();
        } else {
            tally.record_failure();
        }
        i = i + 1;
    }
    proof {
        assert(attempt_ok@.take(n as int) =~= attempt_ok@);
    }
    (table, tally)
}

} // verus!
