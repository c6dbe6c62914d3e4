//! Windowed statistics: per-request measurements are folded into the open
//! window's latency histogram and per-outcome counters; at each wall-clock
//! boundary the window is sealed into a summary and a fresh one opens. The
//! receiver of these windows is the sole authority on run duration.

use histogram::Histogram;
use vstd::multiset::Multiset;
use vstd::pervasive::unreached;
use vstd::prelude::*;

verus! {

#[verifier::external_type_specification]
#[verifier::external_body]
pub struct ExHistogram(Histogram);

/// The values recorded in a histogram, with multiplicity.
pub uninterp spec fn hist_values(h: &Histogram) -> Multiset<u64>;

/// The largest value the histogram's configuration can record.
pub uninterp spec fn hist_limit(h: &Histogram) -> u64;

/// Relies on histogram::Histogram::new: a configuration with
/// grouping_power < max_value_power <= 64 (and a modest grouping power) is
/// accepted; the histogram starts empty and records values up to
/// 2^max_value_power - 1 inclusive.
#[verifier::external_body]
fn hist_new(grouping_power: u8, max_value_power: u8) -> (r: Option<Histogram>)
    ensures
        grouping_power < max_value_power && max_value_power <= 64 && grouping_power <= 20 ==> r
            is Some,
        (r matches Some(h) ==> hist_values(&h) == Multiset::<u64>::empty() && (max_value_power
            == 64 ==> hist_limit(&h) == u64::MAX) && (max_value_power < 64 ==> hist_limit(&h)
            == (1u64 << max_value_power) - 1)),
{
    Histogram::new(grouping_power, max_value_power).ok()
}

/// Relies on histogram::Histogram::increment: a value within the configured
/// range lands in exactly one bucket (one more recorded observation); a
/// value beyond the range is refused and the buckets are unchanged.
#[verifier::external_body]
fn hist_increment(h: &mut Histogram, value: u64) -> (r: bool)
    ensures
        r == (value <= hist_limit(old(h))),
        hist_limit(final(h)) == hist_limit(old(h)),
        r ==> hist_values(final(h)) == hist_values(old(h)).insert(value),
        !r ==> hist_values(final(h)) == hist_values(old(h)),
{
    h.increment(value).is_ok()
}

/// Relies on histogram::Histogram::reset: every bucket count returns to
/// zero while the configuration is kept.
#[verifier::external_body]
fn hist_reset(h: &mut Histogram)
    ensures
        hist_values(final(h)) == Multiset::<u64>::empty(),
        hist_limit(final(h)) == hist_limit(old(h)),
{
    h.reset();
}

/// Relies on histogram::Histogram's derived Clone: a deep copy of the
/// bucket counters and of the configuration.
#[verifier::external_body]
fn hist_snapshot(h: &Histogram) -> (r: Histogram)
    ensures
        hist_values(&r) == hist_values(h),
        hist_limit(&r) == hist_limit(h),
{
    h.clone()
}

/// How a completed or failed request attempt ended.
#[derive(Clone, Copy, PartialEq, Eq, Structural, Debug)]
pub enum Outcome {
    Success,
    ProtocolError,
    ConnectionError,
}

/// One latency/outcome record for a single request attempt, produced exactly
/// once per attempt. Timestamps are nanoseconds on a monotonic clock.
#[derive(Clone, Copy, PartialEq, Eq, Structural, Debug)]
pub struct Measurement {
    pub send_ts: u64,
    pub complete_ts: u64,
    pub outcome: Outcome,
}

impl Measurement {
    /// Completion never precedes the send.
    pub open spec fn wf(&self) -> bool {
        self.send_ts <= self.complete_ts
    }

    pub open spec fn spec_latency(&self) -> int {
        self.complete_ts - self.send_ts
    }

    /// Latency: this measurement's completion timestamp minus its own send
    /// timestamp.
    pub fn latency(&self) -> (r: u64)
        requires
            self.wf(),
        ensures
            r == self.spec_latency(),
    {
        self.complete_ts - self.send_ts
    }
}

/// Law: for every completed request the latency is non-negative and equals
/// the completion timestamp minus that same request's send timestamp.
pub proof fn lemma_latency_nonnegative(m: Measurement)
    requires
        m.wf(),
    ensures
        m.spec_latency() >= 0,
        m.spec_latency() == m.complete_ts - m.send_ts,
{
}

/// The grouping power of each window's latency histogram (bucket
/// resolution).
const WINDOW_GROUPING_POWER: u8 = 7;

/// The maximum value power of each window's latency histogram: every u64
/// latency is recordable.
const WINDOW_MAX_VALUE_POWER: u8 = 64;

/// The accumulator for one fixed-duration reporting interval.
pub struct Window {
    pub hist: Histogram,
    pub ok: u64,
    pub protocol_error: u64,
    pub connection_error: u64,
}

impl Window {
    /// Measurements folded into this window so far.
    pub open spec fn folded(&self) -> int {
        self.ok + self.protocol_error + self.connection_error
    }

    /// The counters fit together in a u64 and the histogram holds exactly
    /// one recorded latency per folded measurement.
    pub open spec fn wf(&self) -> bool {
        &&& self.folded() <= u64::MAX
        &&& hist_limit(&self.hist) == u64::MAX
        &&& hist_values(&self.hist).len() == self.folded()
    }

    pub fn new() -> (w: Window)
        ensures
            w.wf(),
            w.folded() == 0,
            w.ok == 0 && w.protocol_error == 0 && w.connection_error == 0,
            hist_values(&w.hist) == Multiset::<u64>::empty(),
    {
        let h = match hist_new(WINDOW_GROUPING_POWER, WINDOW_MAX_VALUE_POWER) {
            Some(h) => h,
            None => unreached(),
        };
        Window { hist: h, ok: 0, protocol_error: 0, connection_error: 0 }
    }

    pub fn folded_count(&self) -> (n: u64)
        requires
            self.wf(),
        ensures
            n == self.folded(),
    {
        self.ok + self.protocol_error + self.connection_error
    }

    /// Folds one measurement in: bumps the counter for its outcome and
    /// records its latency in the histogram. A window that has already
    /// absorbed u64::MAX measurements refuses further ones.
    pub fn fold(&mut self, m: &Measurement) -> (r: bool)
        requires
            old(self).wf(),
            m.wf(),
        ensures
            final(self).wf(),
            r == (old(self).folded() < u64::MAX),
            !r ==> *final(self) == *old(self),
            r ==> {
                &&& final(self).folded() == old(self).folded() + 1
                &&& final(self).ok == old(self).ok + (if m.outcome == Outcome::Success {
                    1int
                } else {
                    0int
                })
                &&& final(self).protocol_error == old(self).protocol_error + (if m.outcome
                    == Outcome::ProtocolError {
                    1int
                } else {
                    0int
                })
                &&& final(self).connection_error == old(self).connection_error + (if m.outcome
                    == Outcome::ConnectionError {
                    1int
                } else {
                    0int
                })
                &&& hist_values(&final(self).hist) == hist_values(&old(self).hist).insert(
                    m.spec_latency() as u64,
                )
            },
    {
        if self.folded_count() == u64::MAX {
            return false;
        }
        match m.outcome {
            Outcome::Success => {
                self.ok = self.ok + 1;
            },
            Outcome::ProtocolError => {
                self.protocol_error = self.protocol_error + 1;
            },
            Outcome::ConnectionError => {
                self.connection_error = self.connection_error + 1;
            },
        }
        let recorded = hist_increment(&mut self.hist, m.latency());
        proof {
            assert(recorded);
        }
        true
    }
}

/// Law: a window's per-outcome counters sum to the number of measurements
/// folded into it, and its histogram holds exactly one recorded latency per
/// folded measurement.
pub proof fn lemma_window_accounting(w: Window)
    requires
        w.wf(),
    ensures
        w.ok + w.protocol_error + w.connection_error == w.folded(),
        hist_values(&w.hist).len() == w.folded(),
{
}

/// A sealed window: its counters and latency histogram at the moment the
/// wall-clock boundary passed.
pub struct WindowSummary {
    /// 1-based number of the window within the run.
    pub index: u64,
    pub ok: u64,
    pub protocol_error: u64,
    pub connection_error: u64,
    pub total: u64,
    pub histogram: Histogram,
}

impl WindowSummary {
    /// The throughput this window sustained: completed attempts per second,
    /// rounded down. The window must span at least one second.
    pub fn throughput(&self, duration_ns: u64) -> (r: u64)
        requires
            duration_ns >= 1_000_000_000,
        ensures
            r == self.total * 1_000_000_000 / duration_ns as int,
    {
        let scaled: u128 = (self.total as u128) * 1_000_000_000u128;
        let rate: u128 = scaled / (duration_ns as u128);
        proof {
            assert(rate <= self.total) by (nonlinear_arith)
                requires
                    rate == self.total * 1_000_000_000 / duration_ns as int,
                    duration_ns >= 1_000_000_000,
            ;
        }
        rate as u64
    }
}

/// The aggregation task's state: one open window, and how many windows of
/// the configured run have already closed.
pub struct Receiver {
    pub window: Window,
    pub window_start: u64,
    pub duration_ns: u64,
    pub windows_done: u64,
    pub window_count: u64,
}

impl Receiver {
    pub open spec fn wf(&self) -> bool {
        &&& self.window.wf()
        &&& self.duration_ns >= 1
        &&& self.windows_done <= self.window_count
    }

    /// The run is over once the configured number of windows has closed.
    pub open spec fn spec_complete(&self) -> bool {
        self.windows_done >= self.window_count
    }

    pub fn new(duration_ns: u64, window_count: u64, start: u64) -> (r: Receiver)
        requires
            duration_ns >= 1,
        ensures
            r.wf(),
            r.windows_done == 0,
            r.window_count == window_count,
            r.duration_ns == duration_ns,
            r.window_start == start,
            r.window.folded() == 0,
    {
        Receiver { window: Window::new(), window_start: start, duration_ns, windows_done: 0, window_count }
    }

    pub fn is_complete(&self) -> (r: bool)
        ensures
            r == self.spec_complete(),
    {
        self.windows_done >= self.window_count
    }

    /// Folds one measurement into the open window.
    pub fn fold(&mut self, m: &Measurement) -> (r: bool)
        requires
            old(self).wf(),
            m.wf(),
        ensures
            final(self).wf(),
            final(self).window_start == old(self).window_start,
            final(self).duration_ns == old(self).duration_ns,
            final(self).windows_done == old(self).windows_done,
            final(self).window_count == old(self).window_count,
            r == (old(self).window.folded() < u64::MAX),
            !r ==> final(self).window == old(self).window,
            r ==> final(self).window.folded() == old(self).window.folded() + 1,
            r ==> final(self).window.ok == old(self).window.ok + (if m.outcome
                == Outcome::Success {
                1int
            } else {
                0int
            }),
            r ==> final(self).window.protocol_error == old(self).window.protocol_error + (
            if m.outcome == Outcome::ProtocolError {
                1int
            } else {
                0int
            }),
            r ==> final(self).window.connection_error == old(self).window.connection_error + (
            if m.outcome == Outcome::ConnectionError {
                1int
            } else {
                0int
            }),
            r ==> hist_values(&final(self).window.hist) == hist_values(
                &old(self).window.hist,
            ).insert(m.spec_latency() as u64),
    {
        self.window.fold(m)
    }

    /// Closes the open window if `now` has reached its wall-clock boundary
    /// and the run is not yet complete: the sealed summary comes back and a
    /// fresh window opens at `now`. Otherwise nothing changes.
    pub fn tick(&mut self, now: u64) -> (s: Option<WindowSummary>)
        requires
            old(self).wf(),
            now >= old(self).window_start,
        ensures
            final(self).wf(),
            final(self).duration_ns == old(self).duration_ns,
            final(self).window_count == old(self).window_count,
            s is Some <==> !old(self).spec_complete() && now - old(self).window_start >= old(
                self,
            ).duration_ns,
            s is None ==> *final(self) == *old(self),
            (s matches Some(sum) ==> {
                &&& final(self).windows_done == old(self).windows_done + 1
                &&& final(self).window_start == now
                &&& final(self).window.folded() == 0
                &&& sum.index == old(self).windows_done + 1
                &&& sum.ok == old(self).window.ok
                &&& sum.protocol_error == old(self).window.protocol_error
                &&& sum.connection_error == old(self).window.connection_error
                &&& sum.total == old(self).window.folded()
                &&& hist_values(&sum.histogram) == hist_values(&old(self).window.hist)
            }),
    {
        if self.windows_done >= self.window_count {
            return None;
        }
        if now - self.window_start >= self.duration_ns {
            let total = self.window.folded_count();
            let snap = hist_snapshot(&self.window.hist);
            let sum = WindowSummary {
                index: self.windows_done + 1,
                ok: self.window.ok,
                protocol_error: self.window.protocol_error,
                connection_error: self.window.connection_error,
                total,
                histogram: snap,
            };
            hist_reset(&mut self.window.hist);
            self.window.ok = 0;
            self.window.protocol_error = 0;
            self.window.connection_error = 0;
            self.windows_done = self.windows_done + 1;
            self.window_start = now;
            Some(sum)
        } else {
            None
        }
    }
}

} // verus!
