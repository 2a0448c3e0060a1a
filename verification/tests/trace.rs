use pinger::trace::{Hop, HopEvent, TraceEngine, MAX_TRACE_TTL};

const DEST: u32 = 0x7F000001; // 127.0.0.1

#[test]
fn loopback_trace_completes_in_one_hop() {
    // dest 127.0.0.1: the first probe's reply comes from the destination
    // itself, so the list has length 1 and names it.
    let mut t = TraceEngine::new();
    assert_eq!(t.next_ttl(), Some(1));
    t.on_hop_event(HopEvent::EchoReply { addr: DEST, elapsed_micros: 180 });
    assert_eq!(t.next_ttl(), None);
    assert_eq!(t.hops(), vec![Some(Hop { addr: DEST, elapsed_micros: 180 })]);
}

#[test]
fn transit_hops_accumulate_until_destination_replies() {
    let dest: u32 = 0x08080808; // 8.8.8.8
    let routers = [0xC0A80001u32, 0x0A000001, 0xAC100001];
    let mut t = TraceEngine::new();
    for (k, &r) in routers.iter().enumerate() {
        assert_eq!(t.next_ttl(), Some(k as u8 + 1));
        t.on_hop_event(HopEvent::TimeExceeded { addr: r, elapsed_micros: 1000 * (k as u64 + 1) });
    }
    assert_eq!(t.next_ttl(), Some(4));
    t.on_hop_event(HopEvent::EchoReply { addr: dest, elapsed_micros: 9000 });
    assert_eq!(t.next_ttl(), None);
    let hops = t.hops();
    assert!(hops.len() <= 30);
    assert_eq!(hops.len(), 4);
    assert_eq!(hops[0], Some(Hop { addr: 0xC0A80001, elapsed_micros: 1000 }));
    assert_eq!(hops[3], Some(Hop { addr: dest, elapsed_micros: 9000 }));
}

#[test]
fn silent_hops_are_recorded_as_gaps() {
    let mut t = TraceEngine::new();
    t.on_hop_event(HopEvent::Timeout);
    t.on_hop_event(HopEvent::OtherError);
    t.on_hop_event(HopEvent::EchoReply { addr: DEST, elapsed_micros: 50 });
    assert_eq!(
        t.hops(),
        vec![None, None, Some(Hop { addr: DEST, elapsed_micros: 50 })]
    );
}

#[test]
fn trace_stops_at_the_ttl_ceiling() {
    let mut t = TraceEngine::new();
    for k in 0..MAX_TRACE_TTL as usize {
        assert_eq!(t.next_ttl(), Some(k as u8 + 1));
        t.on_hop_event(HopEvent::Timeout);
    }
    assert_eq!(t.next_ttl(), None);
    assert_eq!(t.hops().len(), MAX_TRACE_TTL as usize);
    assert!(t.hops().iter().all(|h| h.is_none()));
}
