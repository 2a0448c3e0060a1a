//! The ping engine as an explicit state machine.
//!
//! The concurrent driver around this library sends probes on a cadence,
//! listens on the socket and arms one timeout per probe. Every decision those
//! tasks make is a transition of [`PingEngine`]: a tick registers and encodes
//! the next probe, an arrival or a timeout completes the matching slot, and
//! each transition returns the batch of consumer events that became emittable.
//!
//! Events are handed out strictly in sequence-number order: a transition
//! drains forward from the emission cursor over every slot that has reached a
//! terminal state and stops at the first slot still pending, so a reply that
//! overtakes an earlier outstanding probe stays buffered in the table until
//! the gap resolves.

use vstd::prelude::*;

use crate::classify::IcmpError;
use crate::codec;
use crate::table::{
    is_terminal, reply_applied, timeout_applied, failure_applied, sends_monotonic,
    CorrelationTable, ProbeOutcome, ProbeRecord,
};

verus! {

/// Probe count used when the caller asks for an unbounded run.
pub const COUNT_CEILING: u16 = 0xFFFF;

/// Validated engine parameters.
#[derive(Clone, Copy, Debug, PartialEq, Eq, Structural)]
pub struct PingConfig {
    /// Number of probes to send; at least 1.
    pub count: u16,
    /// Datagram length in bytes, echo header included; at least 8.
    pub size: u16,
    /// Outgoing hop limit; at least 1.
    pub ttl: u8,
    /// Per-probe timeout, microseconds.
    pub timeout_micros: u64,
    /// Cadence between sends, microseconds.
    pub interval_micros: u64,
    /// Whether the consumer wants the event stream; when false the driver
    /// discards the batches the engine returns.
    pub emit_events: bool,
    /// Whether sending to a broadcast address was explicitly permitted.
    pub broadcast: bool,
    /// Whether to bypass the routing table on sends.
    pub bypass_route: bool,
}

impl PingConfig {
    /// What validation guarantees of every configuration it returns.
    pub open spec fn wf(&self) -> bool {
        &&& self.count >= 1
        &&& self.size >= codec::ICMP_HEADER_LEN
        &&& self.ttl >= 1
    }
}

/// A reason the engine cannot be set up at all. Setup failures surface to
/// the caller before any probe is sent.
#[derive(Clone, Copy, Debug, PartialEq, Eq, Structural)]
pub enum SetupError {
    /// The requested datagram is shorter than the echo header.
    PayloadTooSmall,
    /// A hop limit of zero can never leave the host.
    TtlZero,
    /// The destination is one of the host's interface broadcast addresses
    /// and broadcast was not explicitly enabled.
    TargetIsBroadcast,
}

/// What `build_config` returns for every input. The broadcast guard is
/// checked first, then the payload floor, then the hop limit; a count of
/// zero means "until cancelled" and becomes the 16-bit ceiling.
pub open spec fn spec_build_config(
    dest: u32,
    if_broadcasts: Seq<u32>,
    count: u16,
    size: u16,
    ttl: u8,
    timeout_micros: u64,
    interval_micros: u64,
    emit_events: bool,
    broadcast: bool,
    bypass_route: bool,
) -> Result<PingConfig, SetupError> {
    if !broadcast && if_broadcasts.contains(dest) {
        Err(SetupError::TargetIsBroadcast)
    } else if size < codec::ICMP_HEADER_LEN {
        Err(SetupError::PayloadTooSmall)
    } else if ttl == 0 {
        Err(SetupError::TtlZero)
    } else {
        Ok(
            PingConfig {
                count: if count == 0 { COUNT_CEILING } else { count },
                size,
                ttl,
                timeout_micros,
                interval_micros,
                emit_events,
                broadcast,
                bypass_route,
            },
        )
    }
}

/// Validates the caller's parameters against the host's interface broadcast
/// addresses (`if_broadcasts`, 32-bit IPv4 forms) and the destination
/// `dest`. Construction fails before any probe is sent when the target is a
/// broadcast address that was not asked for, when the payload cannot hold
/// the echo header, or when the hop limit is zero.
pub fn build_config(
    dest: u32,
    if_broadcasts: &Vec<u32>,
    count: u16,
    size: u16,
    ttl: u8,
    timeout_micros: u64,
    interval_micros: u64,
    emit_events: bool,
    broadcast: bool,
    bypass_route: bool,
) -> (r: Result<PingConfig, SetupError>)
    ensures
        r == spec_build_config(
            dest,
            if_broadcasts@,
            count,
            size,
            ttl,
            timeout_micros,
            interval_micros,
            emit_events,
            broadcast,
            bypass_route,
        ),
        r matches Ok(c) ==> c.wf(),
{
    let mut hit: bool = false;
    let mut k: usize = 0;
    let n: usize = if_broadcasts.len();
    while k < n
        invariant
            n == if_broadcasts@.len(),
            k <= n,
            hit == exists|j: int| 0 <= j < k && if_broadcasts@[j] == dest,
        decreases n - k,
    {
        if if_broadcasts[k] == dest {
            hit = true;
        }
        k = k + 1;
    }
    assert(hit == if_broadcasts@.contains(dest));
    if !broadcast && hit {
        Err(SetupError::TargetIsBroadcast)
    } else if size < codec::ICMP_HEADER_LEN {
        Err(SetupError::PayloadTooSmall)
    } else if ttl == 0 {
        Err(SetupError::TtlZero)
    } else {
        Ok(
            PingConfig {
                count: if count == 0 { COUNT_CEILING } else { count },
                size,
                ttl,
                timeout_micros,
                interval_micros,
                emit_events,
                broadcast,
                bypass_route,
            },
        )
    }
}

/// The consumer event a terminal slot produces: the latency for a received
/// reply, a gap for a timeout or failure.
pub open spec fn event_of(o: ProbeOutcome) -> Option<u64> {
    match o {
        ProbeOutcome::Received { latency } => Some(latency),
        _ => None,
    }
}

/// Where forward draining from `from` stops: the first index at or after
/// `from` whose slot is still pending, or the end of the table.
pub open spec fn drain_stop(s: Seq<ProbeRecord>, from: int) -> int
    decreases s.len() - from,
{
    if from < 0 || from >= s.len() {
        from
    } else if !is_terminal(s[from].outcome) {
        from
    } else {
        drain_stop(s, from + 1)
    }
}

/// Draining never passes a pending slot and never runs past the table.
pub proof fn lemma_drain_stop_props(s: Seq<ProbeRecord>, from: int)
    requires
        0 <= from <= s.len(),
    ensures
        from <= drain_stop(s, from) <= s.len(),
        forall|k: int| from <= k < drain_stop(s, from) ==> is_terminal(s[k].outcome),
        drain_stop(s, from) < s.len() ==> !is_terminal(s[drain_stop(s, from)].outcome),
    decreases s.len() - from,
{
    if from < s.len() && is_terminal(s[from].outcome) {
        lemma_drain_stop_props(s, from + 1);
    }
}

/// How one emitted sequence `e1` extends another, `e0`, after a transition
/// left the table at `t`: the old events are unchanged, the cursor moved to
/// the drain stop, and every new event reports its slot's outcome.
pub open spec fn drained_from(t: Seq<ProbeRecord>, e0: Seq<Option<u64>>, e1: Seq<Option<u64>>) -> bool {
    &&& e1.len() == drain_stop(t, e0.len() as int)
    &&& e0.len() <= e1.len()
    &&& forall|k: int| 0 <= k < e0.len() ==> e1[k] == e0[k]
    &&& forall|k: int| e0.len() <= k < e1.len() ==> e1[k] == event_of(t[k].outcome)
}

/// The ping driver's state: validated configuration, the correlation table,
/// the events already emitted, and how many probes have been sent.
pub struct PingEngine {
    config: PingConfig,
    table: CorrelationTable,
    emitted: Vec<Option<u64>>,
    next_send: u16,
}

impl PingEngine {
    /// The configuration the engine was built with.
    pub closed spec fn cfg(&self) -> PingConfig {
        self.config
    }

    /// The correlation table's records, in sequence-number order.
    pub closed spec fn probes(&self) -> Seq<ProbeRecord> {
        self.table@
    }

    /// The events emitted so far. Event `k` belongs to probe `k`: the
    /// stream is a gapless prefix of the probe space.
    pub closed spec fn events(&self) -> Seq<Option<u64>> {
        self.emitted@
    }

    /// How many probes have been sent.
    pub closed spec fn sent(&self) -> int {
        self.next_send as int
    }

    /// The engine's invariant: the configuration is validated, sends are
    /// registered in order with a monotonic clock, exactly the sent probes
    /// are in the table, and the emitted events are a gapless prefix of
    /// terminal slots reported in sequence order.
    pub open spec fn wf(&self) -> bool {
        &&& self.cfg().wf()
        &&& sends_monotonic(self.probes())
        &&& self.probes().len() == self.sent()
        &&& self.sent() <= self.cfg().count
        &&& self.events().len() <= self.probes().len()
        &&& forall|i: int|
            0 <= i < self.events().len() ==> is_terminal(#[trigger] self.probes()[i].outcome)
        &&& forall|i: int|
            0 <= i < self.events().len() ==> self.events()[i] == event_of(
                #[trigger] self.probes()[i].outcome,
            )
    }

    /// A fresh engine: nothing sent, nothing emitted.
    pub fn new(config: PingConfig) -> (e: Self)
        requires
            config.wf(),
        ensures
            e.wf(),
            e.cfg() == config,
            e.probes() =~= Seq::<ProbeRecord>::empty(),
            e.events() =~= Seq::<Option<u64>>::empty(),
            e.sent() == 0,
    {
        PingEngine { config, table: CorrelationTable::new(), emitted: Vec::new(), next_send: 0 }
    }

    /// The sequence number the next tick will send, while any remain.
    pub fn next_seq(&self) -> (r: Option<u16>)
        ensures
            r == if self.sent() < self.cfg().count {
                Some(self.sent() as u16)
            } else {
                None::<u16>
            },
    {
        if self.next_send < self.config.count {
            Some(self.next_send)
        } else {
            None
        }
    }

    /// One tick of the send cadence: registers the next probe as pending at
    /// `now` and returns the encoded echo request to put on the wire. `now`
    /// comes from the driver's monotonic clock.
    pub fn on_tick(&mut self, now: u64) -> (pkt: Vec<u8>)
        requires
            old(self).wf(),
            old(self).sent() < old(self).cfg().count,
            old(self).probes().len() > 0 ==> old(self).probes().last().sent_at <= now,
        ensures
            final(self).wf(),
            final(self).cfg() == old(self).cfg(),
            final(self).sent() == old(self).sent() + 1,
            final(self).probes() == old(self).probes().push(
                ProbeRecord { sent_at: now, outcome: ProbeOutcome::Pending },
            ),
            final(self).events() == old(self).events(),
            pkt@ == codec::echo_request_bytes(old(self).sent() as u16, old(self).cfg().size),
    {
        let seq: u16 = self.next_send;
        self.table.register_send(seq, now);
        self.next_send = seq + 1;
        codec::encode_echo_request(seq, self.config.size)
    }

    /// Emits every event that has become due: walks forward from the
    /// emission cursor over terminal slots, appending one event per slot,
    /// and stops at the first slot still pending. Returns the batch in
    /// sequence-number order.
    fn drain(&mut self) -> (batch: Vec<Option<u64>>)
        requires
            old(self).wf(),
        ensures
            final(self).wf(),
            final(self).cfg() == old(self).cfg(),
            final(self).sent() == old(self).sent(),
            final(self).probes() == old(self).probes(),
            drained_from(final(self).probes(), old(self).events(), final(self).events()),
            final(self).events() == old(self).events() + batch@,
    {
        let ghost t0 = self.table@;
        let ghost e0 = self.emitted@;
        let mut batch: Vec<Option<u64>> = Vec::new();
        proof {
            lemma_drain_stop_props(t0, e0.len() as int);
        }
        loop
            invariant
                self.wf(),
                self.config == old(self).cfg(),
                self.next_send == old(self).sent(),
                self.table@ == t0,
                e0 == old(self).events(),
                self.emitted@ == e0 + batch@,
                drain_stop(t0, self.emitted@.len() as int) == drain_stop(t0, e0.len() as int),
            ensures
                self.table@ == t0,
                self.emitted@ == e0 + batch@,
                self.config == old(self).cfg(),
                self.next_send == old(self).sent(),
                self.wf(),
                self.emitted@.len() == drain_stop(t0, e0.len() as int),
            decreases t0.len() - self.emitted@.len(),
        {
            let cur: usize = self.emitted.len();
            if cur >= self.table.len() {
                break;
            }
            let rec = self.table.record_at(cur as u16);
            match rec.outcome {
                ProbeOutcome::Pending => {
                    break;
                },
                ProbeOutcome::Received { latency } => {
                    self.emitted.push(Some(latency));
                    batch.push(Some(latency));
                },
                ProbeOutcome::TimedOut => {
                    self.emitted.push(None);
                    batch.push(None);
                },
                ProbeOutcome::Failed { .. } => {
                    self.emitted.push(None);
                    batch.push(None);
                },
            }
        }
        batch
    }

    /// An echo reply for `seq` arrived at `arrival`: the matching slot, if
    /// still pending, records its latency, and every event that became due
    /// is returned. A sequence number never registered, a duplicate reply
    /// and a reply whose timeout already fired all leave the table as it
    /// was.
    pub fn on_echo_reply(&mut self, seq: u16, arrival: u64) -> (batch: Vec<Option<u64>>)
        requires
            old(self).wf(),
            seq < old(self).probes().len() ==> old(self).probes()[seq as int].sent_at <= arrival,
        ensures
            final(self).wf(),
            final(self).cfg() == old(self).cfg(),
            final(self).sent() == old(self).sent(),
            final(self).probes() == reply_applied(old(self).probes(), seq as int, arrival),
            drained_from(final(self).probes(), old(self).events(), final(self).events()),
            final(self).events() == old(self).events() + batch@,
    {
        self.table.complete_reply(seq, arrival);
        self.drain()
    }

    /// The timeout for `seq` fired: the slot, if still pending, becomes
    /// `TimedOut`, and every event that became due is returned. A reply
    /// that beat the timeout keeps its latency and the call is a no-op.
    pub fn on_timeout(&mut self, seq: u16) -> (batch: Vec<Option<u64>>)
        requires
            old(self).wf(),
        ensures
            final(self).wf(),
            final(self).cfg() == old(self).cfg(),
            final(self).sent() == old(self).sent(),
            final(self).probes() == timeout_applied(old(self).probes(), seq as int),
            drained_from(final(self).probes(), old(self).events(), final(self).events()),
            final(self).events() == old(self).events() + batch@,
    {
        self.table.complete_timeout(seq);
        self.drain()
    }

    /// The error queue classified a failure for `seq`: the slot, if still
    /// pending, records the error, and every event that became due is
    /// returned.
    pub fn on_icmp_error(&mut self, seq: u16, error: IcmpError) -> (batch: Vec<Option<u64>>)
        requires
            old(self).wf(),
        ensures
            final(self).wf(),
            final(self).cfg() == old(self).cfg(),
            final(self).sent() == old(self).sent(),
            final(self).probes() == failure_applied(old(self).probes(), seq as int, error),
            drained_from(final(self).probes(), old(self).events(), final(self).events()),
            final(self).events() == old(self).events() + batch@,
    {
        self.table.complete_failure(seq, error);
        self.drain()
    }

    /// The kernel rejected the send for `seq` with `errno`: the slot is
    /// marked failed so the run does not wait out its timeout.
    pub fn on_send_failure(&mut self, seq: u16, errno: i32) -> (batch: Vec<Option<u64>>)
        requires
            old(self).wf(),
        ensures
            final(self).wf(),
            final(self).cfg() == old(self).cfg(),
            final(self).sent() == old(self).sent(),
            final(self).probes() == failure_applied(
                old(self).probes(),
                seq as int,
                IcmpError::Io { errno },
            ),
            drained_from(final(self).probes(), old(self).events(), final(self).events()),
            final(self).events() == old(self).events() + batch@,
    {
        self.on_icmp_error(seq, IcmpError::Io { errno })
    }

    /// The run is complete once all probes have been sent and the final
    /// probe has reached a terminal state. Timeouts are armed in order with
    /// equal durations, so by then every earlier slot is terminal too.
    pub fn is_complete(&self) -> (r: bool)
        requires
            self.wf(),
        ensures
            r == (self.sent() == self.cfg().count && is_terminal(
                self.probes()[self.cfg().count - 1].outcome,
            )),
    {
        if self.next_send < self.config.count {
            return false;
        }
        let last = self.table.record_at(self.config.count - 1);
        !matches!(last.outcome, ProbeOutcome::Pending)
    }

    /// A copy of the events emitted so far, in sequence-number order.
    pub fn events_emitted(&self) -> (r: Vec<Option<u64>>)
        ensures
            r@ == self.events(),
    {
        let mut r: Vec<Option<u64>> = Vec::new();
        let mut i: usize = 0;
        let n: usize = self.emitted.len();
        while i < n
            invariant
                n == self.emitted@.len(),
                i <= n,
                r@ =~= self.emitted@.take(i as int),
            decreases n - i,
        {
            r.push(self.emitted[i]);
            i = i + 1;
        }
        proof {
            assert(r@ =~= self.emitted@);
        }
        r
    }

    /// A copy of the record for probe `seq`.
    pub fn probe_record(&self, seq: u16) -> (r: ProbeRecord)
        requires
            seq < self.probes().len(),
        ensures
            r == self.probes()[seq as int],
    {
        self.table.record_at(seq)
    }

    /// The outcome counts and the latency sum over the whole table.
    pub fn summary(&self) -> (s: crate::table::PingSummary)
        requires
            self.wf(),
        ensures
            s.sent == self.probes().len(),
            s.received == crate::table::count_received(self.probes()),
            s.timed_out == crate::table::count_timed_out(self.probes()),
            s.failed == crate::table::count_failed(self.probes()),
            s.pending == crate::table::count_pending(self.probes()),
            s.total_latency_micros == crate::table::total_latency(self.probes()),
    {
        self.table.summary()
    }
}

/// Probes are registered strictly in sequence order with a clock that never
/// runs backwards, so every probe's send instant is at or before the next
/// one's.
pub proof fn lemma_sends_in_order(e: &PingEngine)
    requires
        e.wf(),
    ensures
        forall|i: int, j: int|
            0 <= i <= j < e.probes().len() ==> e.probes()[i].sent_at <= e.probes()[j].sent_at,
{
}

/// The consumer stream is in strict sequence-number order: the events
/// emitted so far are exactly one per probe below the emission cursor, each
/// reporting its own slot's terminal outcome — so when event `k` is out,
/// every event before `k` is out too.
pub proof fn lemma_events_in_order(e: &PingEngine)
    requires
        e.wf(),
    ensures
        e.events().len() <= e.probes().len(),
        forall|k: int|
            0 <= k < e.events().len() ==> is_terminal(#[trigger] e.probes()[k].outcome),
        forall|k: int|
            0 <= k < e.events().len() ==> e.events()[k] == event_of(
                #[trigger] e.probes()[k].outcome,
            ),
{
}

} // verus!
