//! End-to-end behaviour of the library: queue discipline, the connection
//! state machine, windowed statistics, and worker startup decisions.

use rpc_perf::client::setup_worker;
use rpc_perf::connection::{Connection, ParseResult};
use rpc_perf::logger::{set_log_level, LogFilter};
use rpc_perf::net::{choose_layer_3, select_endpoint, AddrFamily, ConnectError, InternetProtocol};
use rpc_perf::queue::WorkQueue;
use rpc_perf::state::{Interest, State};
use rpc_perf::stats::{Measurement, Outcome, Receiver, Window};

#[test]
fn layer3_flags_resolve() {
    assert_eq!(choose_layer_3(false, false), Ok(InternetProtocol::Any));
    assert_eq!(choose_layer_3(true, false), Ok(InternetProtocol::IpV4));
    assert_eq!(choose_layer_3(false, true), Ok(InternetProtocol::IpV6));
}

#[test]
fn layer3_conflict_is_rejected() {
    // Both family restrictions at once: configuration resolution fails
    // before any connection attempt.
    assert!(choose_layer_3(true, true).is_err());
}

#[test]
fn endpoint_family_is_honored() {
    let v4_first = vec![AddrFamily::V4, AddrFamily::V6];
    let v6_first = vec![AddrFamily::V6, AddrFamily::V4];
    let empty: Vec<AddrFamily> = Vec::new();

    assert_eq!(select_endpoint(InternetProtocol::Any, &v4_first), Ok(0));
    assert_eq!(select_endpoint(InternetProtocol::Any, &v6_first), Ok(0));
    assert_eq!(select_endpoint(InternetProtocol::IpV4, &v4_first), Ok(0));
    // v4-only never yields a v6 endpoint, and vice versa; only the first
    // resolved endpoint is ever considered.
    assert_eq!(select_endpoint(InternetProtocol::IpV4, &v6_first), Err(ConnectError::FamilyMismatch));
    assert_eq!(select_endpoint(InternetProtocol::IpV6, &v4_first), Err(ConnectError::FamilyMismatch));
    assert_eq!(select_endpoint(InternetProtocol::IpV6, &v6_first), Ok(0));
    assert_eq!(select_endpoint(InternetProtocol::Any, &empty), Err(ConnectError::NoEndpoints));
}

#[test]
fn queue_is_fifo_and_bounded() {
    let mut q = WorkQueue::new(2);
    assert!(q.is_empty());
    assert_eq!(q.pop(), None);

    assert_eq!(q.push(vec![1u8]), Ok(()));
    assert_eq!(q.push(vec![2u8]), Ok(()));
    // The occupied size never exceeds the capacity: a full queue hands the
    // item back for the producer to retry, never drops it.
    assert_eq!(q.push(vec![3u8]), Err(vec![3u8]));
    assert_eq!(q.len(), 2);

    // Pops return exactly what was pushed, oldest first.
    assert_eq!(q.pop(), Some(vec![1u8]));
    assert_eq!(q.push(vec![3u8]), Ok(()));
    assert_eq!(q.pop(), Some(vec![2u8]));
    assert_eq!(q.pop(), Some(vec![3u8]));
    assert_eq!(q.pop(), None);
}

#[test]
fn measurement_latency_is_exact() {
    let m = Measurement { send_ts: 100, complete_ts: 130, outcome: Outcome::Success };
    assert_eq!(m.latency(), 30);
    let zero = Measurement { send_ts: 7, complete_ts: 7, outcome: Outcome::ConnectionError };
    assert_eq!(zero.latency(), 0);
}

#[test]
fn connection_lifecycle() {
    let mut q = WorkQueue::new(16);
    q.push(vec![10u8, 20, 30]).unwrap();
    q.push(vec![40u8]).unwrap();

    let mut c = Connection::new(5);
    assert_eq!(c.slot, 5);
    assert_eq!(c.state, State::Connecting);
    assert_eq!(c.interest(), Some(Interest::Writable));

    // Refill pulls the oldest request and turns to writing.
    assert!(c.refill(&mut q));
    assert_eq!(c.state, State::Writing);
    assert_eq!(c.unwritten(), &[10u8, 20, 30][..]);

    // Partial write keeps writable interest and remembers the progress.
    c.advance_write(2, 111);
    assert_eq!(c.state, State::Writing);
    assert_eq!(c.interest(), Some(Interest::Writable));
    assert_eq!(c.unwritten(), &[30u8][..]);

    // Full flush records the send timestamp and awaits the response.
    c.advance_write(1, 123);
    assert_eq!(c.state, State::AwaitingResponse);
    assert_eq!(c.interest(), Some(Interest::Readable));

    // More data needed: nothing changes.
    assert_eq!(c.on_readable(ParseResult::Incomplete, 150, &mut q), None);
    assert_eq!(c.state, State::AwaitingResponse);

    // A complete response yields this request's measurement and the next
    // request is pulled at once.
    let m = c.on_readable(ParseResult::Complete { success: true }, 200, &mut q).unwrap();
    assert_eq!(m.send_ts, 123);
    assert_eq!(m.complete_ts, 200);
    assert_eq!(m.outcome, Outcome::Success);
    assert_eq!(c.state, State::Writing);
    assert_eq!(c.unwritten(), &[40u8][..]);

    // Queue now empty: after this response the connection idles writable.
    c.advance_write(1, 300);
    let m2 = c.on_readable(ParseResult::Complete { success: false }, 333, &mut q).unwrap();
    assert_eq!(m2.outcome, Outcome::ProtocolError);
    assert_eq!(m2.send_ts, 300);
    assert_eq!(c.state, State::Connecting);
    assert!(!c.refill(&mut q));
    assert_eq!(c.interest(), Some(Interest::Writable));
}

#[test]
fn malformed_response_closes_connection() {
    let mut q = WorkQueue::new(4);
    q.push(vec![9u8]).unwrap();
    let mut c = Connection::new(0);
    assert!(c.refill(&mut q));
    c.advance_write(1, 50);
    let m = c.on_readable(ParseResult::Malformed, 60, &mut q).unwrap();
    assert_eq!(m.outcome, Outcome::ProtocolError);
    assert_eq!(m.send_ts, 50);
    assert_eq!(m.complete_ts, 60);
    assert_eq!(c.state, State::Closed);
    assert_eq!(c.interest(), None);
}

#[test]
fn socket_error_measures_inflight_request() {
    let mut q = WorkQueue::new(4);
    q.push(vec![1u8, 2]).unwrap();

    // An idle connection closes silently.
    let mut idle = Connection::new(0);
    assert_eq!(idle.on_error(10), None);
    assert_eq!(idle.state, State::Closed);

    // A connection awaiting its response reports one connection error.
    let mut c = Connection::new(1);
    assert!(c.refill(&mut q));
    c.advance_write(2, 70);
    let m = c.on_error(95).unwrap();
    assert_eq!(m.outcome, Outcome::ConnectionError);
    assert_eq!(m.send_ts, 70);
    assert_eq!(m.complete_ts, 95);
    assert_eq!(c.state, State::Closed);
}

#[test]
fn window_counters_sum_to_folded() {
    let mut w = Window::new();
    let samples = [
        Measurement { send_ts: 0, complete_ts: 10, outcome: Outcome::Success },
        Measurement { send_ts: 5, complete_ts: 25, outcome: Outcome::Success },
        Measurement { send_ts: 8, complete_ts: 9, outcome: Outcome::ProtocolError },
        Measurement { send_ts: 1, complete_ts: 2, outcome: Outcome::ConnectionError },
    ];
    for m in samples.iter() {
        assert!(w.fold(m));
    }
    assert_eq!(w.ok, 2);
    assert_eq!(w.protocol_error, 1);
    assert_eq!(w.connection_error, 1);
    assert_eq!(w.folded_count(), 4);
    assert_eq!(w.ok + w.protocol_error + w.connection_error, w.folded_count());
}

#[test]
fn histogram_records_each_latency() {
    let mut r = Receiver::new(1_000, 1, 0);
    for i in 0..5u64 {
        let m = Measurement { send_ts: 0, complete_ts: 30 + i, outcome: Outcome::Success };
        assert!(r.fold(&m));
    }
    let summary = r.tick(1_000).unwrap();
    assert_eq!(summary.total, 5);
    // Bucket totals equal the number of recorded latencies.
    let bucket_sum: u64 = summary.histogram.as_slice().iter().sum();
    assert_eq!(bucket_sum, 5);
}

#[test]
#[allow(deprecated)]
fn histogram_holds_real_latencies() {
    let mut r = Receiver::new(100, 1, 0);
    let m = Measurement { send_ts: 10, complete_ts: 52, outcome: Outcome::Success };
    assert!(r.fold(&m));
    let summary = r.tick(100).unwrap();
    // Latency 42 lands in the exact low bucket: the histogram carries the
    // measured value, not some placeholder.
    let bucket = summary.histogram.percentile(0.5).unwrap().unwrap();
    assert_eq!(bucket.end(), 42);
    assert_eq!(bucket.count(), 1);
}

#[test]
fn throughput_is_exact() {
    let second: u64 = 1_000_000_000;
    let mut r = Receiver::new(2 * second, 1, 0);
    for i in 0..7u64 {
        let m = Measurement { send_ts: i, complete_ts: i + 1, outcome: Outcome::Success };
        assert!(r.fold(&m));
    }
    let summary = r.tick(2 * second).unwrap();
    // Seven requests over a two-second window: three per second, rounded
    // down.
    assert_eq!(summary.throughput(2 * second), 3);
}

#[test]
fn one_window_one_summary() {
    // Window duration one second, window count one, steady flow: exactly
    // one summary, then the run is over.
    let second: u64 = 1_000_000_000;
    let mut r = Receiver::new(second, 1, 0);
    for i in 0..3u64 {
        let m = Measurement { send_ts: i, complete_ts: i + 100, outcome: Outcome::Success };
        assert!(r.fold(&m));
    }
    assert!(!r.is_complete());
    assert!(r.tick(second / 2).is_none());
    let summary = r.tick(second).expect("window boundary must seal the window");
    assert_eq!(summary.index, 1);
    assert_eq!(summary.ok, 3);
    assert_eq!(summary.total, 3);
    assert!(r.is_complete());
    // The run is complete: no further summaries, ever.
    assert!(r.tick(second * 10).is_none());
}

#[test]
fn windows_reset_between_intervals() {
    let mut r = Receiver::new(100, 2, 0);
    let m = Measurement { send_ts: 0, complete_ts: 40, outcome: Outcome::Success };
    assert!(r.fold(&m));
    let first = r.tick(100).unwrap();
    assert_eq!(first.total, 1);
    assert!(!r.is_complete());

    // The next window starts fresh: counters and histogram at zero.
    let m2 = Measurement { send_ts: 100, complete_ts: 160, outcome: Outcome::ProtocolError };
    assert!(r.fold(&m2));
    let second = r.tick(200).unwrap();
    assert_eq!(second.index, 2);
    assert_eq!(second.ok, 0);
    assert_eq!(second.protocol_error, 1);
    assert_eq!(second.total, 1);
    let bucket_sum: u64 = second.histogram.as_slice().iter().sum();
    assert_eq!(bucket_sum, 1);
    assert!(r.is_complete());
}

#[test]
fn startup_tally_decides_fail_fast() {
    // All configured servers unreachable: the worker must report a fatal
    // condition (the process then exits with status 1 before any dispatch).
    let (_table, tally) = setup_worker(&vec![false, false, false]);
    assert_eq!(tally.connects, 0);
    assert_eq!(tally.failures, 3);
    assert!(tally.all_failed(3));

    // Partial failure is tolerated.
    let (_table, tally) = setup_worker(&vec![true, false]);
    assert_eq!(tally.connects, 1);
    assert_eq!(tally.failures, 1);
    assert!(!tally.all_failed(2));
}

#[test]
fn two_connections_drive_two_measurements() {
    // One server, one worker, two connections per server, the queue
    // pre-seeded with two requests.
    let mut queue = WorkQueue::new(10_000);
    queue.push(vec![1u8, 2, 3]).unwrap();
    queue.push(vec![4u8, 5]).unwrap();

    let (mut table, tally) = setup_worker(&vec![true, true]);
    assert_eq!(tally.connects, 2);
    assert_eq!(tally.failures, 0);
    assert!(!tally.all_failed(2));
    assert!(table.get(0).is_some());
    assert!(table.get(1).is_some());

    let second: u64 = 1_000_000_000;
    let mut receiver = Receiver::new(second, 1, 0);

    // Writable readiness on both slots: each pulls one request.
    assert!(table.deliver_writable(0, &mut queue));
    assert!(table.deliver_writable(1, &mut queue));
    assert_eq!(queue.len(), 0);

    // Both requests flush, then both responses complete.
    table.deliver_wrote(0, 3, 10);
    table.deliver_wrote(1, 2, 11);
    let m0 = table
        .deliver_readable(0, ParseResult::Complete { success: true }, 40, &mut queue)
        .unwrap();
    let m1 = table
        .deliver_readable(1, ParseResult::Complete { success: false }, 51, &mut queue)
        .unwrap();
    assert_eq!(m0.send_ts, 10);
    assert_eq!(m0.complete_ts, 40);
    assert_eq!(m1.send_ts, 11);

    // Exactly two measurements reach the receiver.
    assert!(receiver.fold(&m0));
    assert!(receiver.fold(&m1));
    assert_eq!(receiver.window.ok, 1);
    assert_eq!(receiver.window.protocol_error, 1);
    let summary = receiver.tick(second).unwrap();
    assert_eq!(summary.total, 2);
    assert!(receiver.is_complete());
}

#[test]
fn slots_are_reused_only_after_removal() {
    let (mut table, _tally) = setup_worker(&vec![true, true]);
    assert_eq!(table.capacity(), 2);
    // The table is full: no third connection fits.
    assert_eq!(table.insert(), None);

    // An error frees the slot, and only then is it reused.
    let m = table.deliver_error(0, 5);
    assert!(m.is_none());
    assert!(table.get(0).is_none());
    let slot = table.insert().unwrap();
    assert_eq!(slot, 0);
    assert!(table.get(0).is_some());
}

#[test]
fn verbosity_maps_to_filter() {
    assert_eq!(set_log_level(0), LogFilter::Info);
    assert_eq!(set_log_level(1), LogFilter::Debug);
    assert_eq!(set_log_level(2), LogFilter::Trace);
    assert_eq!(set_log_level(9), LogFilter::Trace);
}
