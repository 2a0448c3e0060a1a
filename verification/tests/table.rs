use pinger::classify::IcmpError;
use pinger::table::{
    average_latency_micros, loss_permille, CorrelationTable, ProbeOutcome, ProbeRecord,
};

#[test]
fn register_then_reply_measures_latency() {
    let mut t = CorrelationTable::new();
    t.register_send(0, 100);
    assert_eq!(t.len(), 1);
    assert_eq!(t.record_at(0), ProbeRecord { sent_at: 100, outcome: ProbeOutcome::Pending });
    assert!(t.complete_reply(0, 350));
    assert_eq!(
        t.record_at(0),
        ProbeRecord { sent_at: 100, outcome: ProbeOutcome::Received { latency: 250 } }
    );
}

#[test]
fn duplicate_reply_is_noop() {
    let mut t = CorrelationTable::new();
    t.register_send(0, 0);
    assert!(t.complete_reply(0, 40));
    assert!(!t.complete_reply(0, 90));
    assert_eq!(
        t.record_at(0),
        ProbeRecord { sent_at: 0, outcome: ProbeOutcome::Received { latency: 40 } }
    );
}

#[test]
fn reply_after_timeout_is_noop() {
    let mut t = CorrelationTable::new();
    t.register_send(0, 0);
    assert!(t.complete_timeout(0));
    assert!(!t.complete_reply(0, 75));
    assert_eq!(t.record_at(0), ProbeRecord { sent_at: 0, outcome: ProbeOutcome::TimedOut });
}

#[test]
fn timeout_after_reply_keeps_latency() {
    let mut t = CorrelationTable::new();
    t.register_send(0, 10);
    assert!(t.complete_reply(0, 30));
    assert!(!t.complete_timeout(0));
    assert_eq!(
        t.record_at(0),
        ProbeRecord { sent_at: 10, outcome: ProbeOutcome::Received { latency: 20 } }
    );
}

#[test]
fn failure_fills_the_slot_once() {
    let err = IcmpError::HostUnreachable { ip: 0x0A000001, seq: 0 };
    let mut t = CorrelationTable::new();
    t.register_send(0, 0);
    assert!(t.complete_failure(0, err));
    assert!(!t.complete_failure(0, IcmpError::Io { errno: 1 }));
    assert_eq!(t.record_at(0), ProbeRecord { sent_at: 0, outcome: ProbeOutcome::Failed { error: err } });
}

#[test]
fn unregistered_sequence_is_ignored() {
    let mut t = CorrelationTable::new();
    t.register_send(0, 0);
    assert!(!t.complete_reply(7, 10));
    assert!(!t.complete_timeout(7));
    assert!(!t.complete_failure(7, IcmpError::Io { errno: 0 }));
    assert_eq!(t.len(), 1);
}

#[test]
fn summary_partitions_every_outcome() {
    let mut t = CorrelationTable::new();
    t.register_send(0, 0);
    t.register_send(1, 10);
    t.register_send(2, 20);
    t.register_send(3, 30);
    t.register_send(4, 40);
    t.complete_reply(0, 25); // latency 25
    t.complete_timeout(1);
    t.complete_failure(2, IcmpError::Io { errno: 101 });
    t.complete_reply(3, 45); // latency 15
    // slot 4 stays pending
    let s = t.summary();
    assert_eq!(s.sent, 5);
    assert_eq!(s.received, 2);
    assert_eq!(s.timed_out, 1);
    assert_eq!(s.failed, 1);
    assert_eq!(s.pending, 1);
    assert_eq!(s.received + s.timed_out + s.failed + s.pending, s.sent);
    assert_eq!(s.total_latency_micros, 40);
}

#[test]
fn loss_permille_formula() {
    assert_eq!(loss_permille(0, 0), 0);
    assert_eq!(loss_permille(3, 3), 0);
    assert_eq!(loss_permille(2, 0), 1000);
    assert_eq!(loss_permille(4, 3), 250);
    assert_eq!(loss_permille(3, 1), 666);
}

#[test]
fn average_latency_formula() {
    assert_eq!(average_latency_micros(0, 0), 0);
    assert_eq!(average_latency_micros(30, 3), 10);
    assert_eq!(average_latency_micros(25, 2), 12);
}
