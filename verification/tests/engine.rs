use pinger::classify::IcmpError;
use pinger::engine::{build_config, PingConfig, PingEngine, SetupError, COUNT_CEILING};
use pinger::table::{loss_permille, ProbeOutcome};

const DEST: u32 = 0x7F000001; // 127.0.0.1
const SEC: u64 = 1_000_000;

fn config(count: u16, timeout: u64, interval: u64) -> PingConfig {
    build_config(DEST, &vec![], count, 32, 64, timeout, interval, true, false, false).unwrap()
}

#[test]
fn broadcast_target_without_flag_is_refused() {
    let broadcasts = vec![0xC0A801FF, 0x0AFFFFFF]; // 192.168.1.255, 10.255.255.255
    let r = build_config(0xC0A801FF, &broadcasts, 3, 32, 64, 5 * SEC, SEC, true, false, false);
    assert_eq!(r, Err(SetupError::TargetIsBroadcast));
    // with the flag the same target passes
    let r = build_config(0xC0A801FF, &broadcasts, 3, 32, 64, 5 * SEC, SEC, true, true, false);
    assert!(r.is_ok());
    // a non-broadcast target needs no flag
    let r = build_config(DEST, &broadcasts, 3, 32, 64, 5 * SEC, SEC, true, false, false);
    assert!(r.is_ok());
}

#[test]
fn undersized_payload_is_refused() {
    let r = build_config(DEST, &vec![], 1, 7, 64, SEC, SEC, true, false, false);
    assert_eq!(r, Err(SetupError::PayloadTooSmall));
    assert!(build_config(DEST, &vec![], 1, 8, 64, SEC, SEC, true, false, false).is_ok());
}

#[test]
fn zero_ttl_is_refused() {
    let r = build_config(DEST, &vec![], 1, 32, 0, SEC, SEC, true, false, false);
    assert_eq!(r, Err(SetupError::TtlZero));
}

#[test]
fn zero_count_means_until_cancelled() {
    let c = build_config(DEST, &vec![], 0, 32, 64, SEC, SEC, true, false, false).unwrap();
    assert_eq!(c.count, COUNT_CEILING);
}

#[test]
fn happy_path_three_probes() {
    // dest 127.0.0.1, count 3, size 32, interval 1 s, timeout 5 s; every
    // probe answered quickly, events in order, no loss.
    let mut e = PingEngine::new(config(3, 5 * SEC, SEC));
    let p = e.on_tick(0);
    assert_eq!(p.len(), 32);
    let b = e.on_echo_reply(0, 300);
    assert_eq!(b, vec![Some(300)]);
    e.on_tick(SEC);
    let b = e.on_echo_reply(1, SEC + 420);
    assert_eq!(b, vec![Some(420)]);
    e.on_tick(2 * SEC);
    let b = e.on_echo_reply(2, 2 * SEC + 250);
    assert_eq!(b, vec![Some(250)]);
    assert!(e.is_complete());
    let s = e.summary();
    assert_eq!((s.sent, s.received, s.pending), (3, 3, 0));
    assert_eq!(loss_permille(s.sent, s.received), 0);
    assert_eq!(e.events_emitted(), vec![Some(300), Some(420), Some(250)]);
}

#[test]
fn all_timeouts_two_probes() {
    // unrouteable target: count 2, every probe times out; two gap events
    // and total loss.
    let mut e = PingEngine::new(config(2, SEC / 2, SEC));
    e.on_tick(0);
    let b = e.on_timeout(0);
    assert_eq!(b, vec![None]);
    e.on_tick(SEC);
    assert!(!e.is_complete());
    let b = e.on_timeout(1);
    assert_eq!(b, vec![None]);
    assert!(e.is_complete());
    let s = e.summary();
    assert_eq!((s.sent, s.received, s.timed_out), (2, 0, 2));
    assert_eq!(loss_permille(s.sent, s.received), 1000);
}

#[test]
fn single_probe_run() {
    let mut e = PingEngine::new(config(1, 5 * SEC, SEC));
    assert_eq!(e.next_seq(), Some(0));
    e.on_tick(0);
    assert_eq!(e.next_seq(), None);
    assert!(!e.is_complete());
    let b = e.on_echo_reply(0, 90);
    assert_eq!(b, vec![Some(90)]);
    assert!(e.is_complete());
}

#[test]
fn short_interval_keeps_probes_outstanding() {
    // interval < timeout: all three probes are in flight before the first
    // completion.
    let mut e = PingEngine::new(config(3, 5 * SEC, SEC / 10));
    e.on_tick(0);
    e.on_tick(SEC / 10);
    e.on_tick(2 * SEC / 10);
    let s = e.summary();
    assert_eq!((s.sent, s.pending), (3, 3));
    let b = e.on_echo_reply(0, SEC / 4);
    assert_eq!(b, vec![Some(SEC / 4)]);
}

#[test]
fn long_interval_times_out_before_next_send() {
    // timeout < interval: probe 0's gap event is out before probe 1 is
    // even sent.
    let mut e = PingEngine::new(config(2, SEC / 2, 2 * SEC));
    e.on_tick(0);
    let b = e.on_timeout(0);
    assert_eq!(b, vec![None]);
    e.on_tick(2 * SEC);
    let b = e.on_timeout(1);
    assert_eq!(b, vec![None]);
    assert_eq!(e.events_emitted(), vec![None, None]);
}

#[test]
fn reordered_replies_are_emitted_in_sequence_order() {
    // replies arrive for sequences [2, 0, 1]; the consumer still sees
    // events for 0, 1, 2 in that order, the later successes buffered
    // until the gap at 0 resolves.
    let mut e = PingEngine::new(config(3, 5 * SEC, SEC));
    e.on_tick(0);
    e.on_tick(SEC);
    e.on_tick(2 * SEC);
    let b2 = e.on_echo_reply(2, 2 * SEC + 100);
    assert_eq!(b2, vec![]);
    let b0 = e.on_echo_reply(0, 2 * SEC + 200);
    assert_eq!(b0, vec![Some(2 * SEC + 200)]);
    let b1 = e.on_echo_reply(1, 2 * SEC + 300);
    assert_eq!(b1, vec![Some(SEC + 300), Some(100)]);
    assert_eq!(
        e.events_emitted(),
        vec![Some(2 * SEC + 200), Some(SEC + 300), Some(100)]
    );
    assert!(e.is_complete());
}

#[test]
fn duplicate_reply_is_a_noop() {
    let mut e = PingEngine::new(config(2, 5 * SEC, SEC));
    e.on_tick(0);
    let b = e.on_echo_reply(0, 50);
    assert_eq!(b, vec![Some(50)]);
    let b = e.on_echo_reply(0, 400);
    assert_eq!(b, vec![]);
    assert_eq!(
        e.probe_record(0).outcome,
        ProbeOutcome::Received { latency: 50 }
    );
}

#[test]
fn late_reply_after_timeout_is_a_noop() {
    let mut e = PingEngine::new(config(1, SEC / 2, SEC));
    e.on_tick(0);
    let b = e.on_timeout(0);
    assert_eq!(b, vec![None]);
    let b = e.on_echo_reply(0, 9 * SEC);
    assert_eq!(b, vec![]);
    assert_eq!(e.probe_record(0).outcome, ProbeOutcome::TimedOut);
    assert_eq!(e.events_emitted(), vec![None]);
}

#[test]
fn reply_for_unknown_sequence_changes_nothing() {
    let mut e = PingEngine::new(config(2, 5 * SEC, SEC));
    e.on_tick(0);
    let b = e.on_echo_reply(9, 100);
    assert_eq!(b, vec![]);
    let s = e.summary();
    assert_eq!((s.sent, s.pending), (1, 1));
}

#[test]
fn send_failure_marks_the_slot_failed() {
    let mut e = PingEngine::new(config(1, 5 * SEC, SEC));
    e.on_tick(0);
    let b = e.on_send_failure(0, 13);
    assert_eq!(b, vec![None]);
    assert_eq!(
        e.probe_record(0).outcome,
        ProbeOutcome::Failed { error: IcmpError::Io { errno: 13 } }
    );
    assert!(e.is_complete());
}

#[test]
fn icmp_error_completes_the_probe() {
    let err = IcmpError::HostUnreachable { ip: 0x0A000001, seq: 0 };
    let mut e = PingEngine::new(config(1, 5 * SEC, SEC));
    e.on_tick(0);
    let b = e.on_icmp_error(0, err);
    assert_eq!(b, vec![None]);
    let s = e.summary();
    assert_eq!((s.sent, s.failed), (1, 1));
    assert_eq!(s.received + s.timed_out + s.failed + s.pending, s.sent);
}

#[test]
fn engine_packets_carry_their_sequence() {
    let mut e = PingEngine::new(config(3, 5 * SEC, SEC));
    for want in 0u16..3 {
        let pkt = e.on_tick(want as u64 * SEC);
        assert_eq!(pinger::codec::echo_sequence(&pkt), Some(want));
        assert!(pinger::codec::verify_checksum(&pkt));
    }
}
