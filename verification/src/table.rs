//! The correlation table: one record per probe, indexed by sequence number.
//!
//! A record is created in order when its probe is sent and carries the send
//! timestamp and an outcome slot. The slot starts `Pending` and moves exactly
//! once to one of the three terminal states: `Received` with the measured
//! latency, `TimedOut`, or `Failed` with a classified error. A completion
//! aimed at a slot that is already terminal changes nothing, which absorbs
//! duplicate replies and replies that lose the race against their timeout.
//!
//! Timestamps are microseconds on a monotonic clock supplied by the caller.

use vstd::prelude::*;

use crate::classify::IcmpError;

verus! {

/// The outcome slot of one probe.
#[derive(Clone, Copy, Debug, PartialEq, Eq, Structural)]
pub enum ProbeOutcome {
    /// The probe is outstanding.
    Pending,
    /// A reply arrived; `latency` is arrival minus send time, in microseconds.
    Received { latency: u64 },
    /// The timeout fired before any reply.
    TimedOut,
    /// The probe failed: the kernel rejected the send or a router answered
    /// with an ICMP error.
    Failed { error: IcmpError },
}

/// One probe: when it was sent, and how it ended.
#[derive(Clone, Copy, Debug, PartialEq, Eq, Structural)]
pub struct ProbeRecord {
    /// Send instant, microseconds on the caller's monotonic clock.
    pub sent_at: u64,
    /// The outcome slot.
    pub outcome: ProbeOutcome,
}

/// A slot that has left `Pending` never changes again.
pub open spec fn is_terminal(o: ProbeOutcome) -> bool {
    !(o is Pending)
}

/// Send instants never decrease along the table.
pub open spec fn sends_monotonic(s: Seq<ProbeRecord>) -> bool {
    forall|i: int, j: int| 0 <= i <= j < s.len() ==> s[i].sent_at <= s[j].sent_at
}

/// The table after a reply for `seq` at `arrival`: the slot gains its
/// latency if it was pending, and nothing moves otherwise.
pub open spec fn reply_applied(s: Seq<ProbeRecord>, seq: int, arrival: u64) -> Seq<ProbeRecord> {
    if 0 <= seq < s.len() && s[seq].outcome is Pending {
        s.update(
            seq,
            ProbeRecord {
                sent_at: s[seq].sent_at,
                outcome: ProbeOutcome::Received { latency: (arrival - s[seq].sent_at) as u64 },
            },
        )
    } else {
        s
    }
}

/// The table after the timeout for `seq` fires.
pub open spec fn timeout_applied(s: Seq<ProbeRecord>, seq: int) -> Seq<ProbeRecord> {
    if 0 <= seq < s.len() && s[seq].outcome is Pending {
        s.update(seq, ProbeRecord { sent_at: s[seq].sent_at, outcome: ProbeOutcome::TimedOut })
    } else {
        s
    }
}

/// The table after a classified failure for `seq`.
pub open spec fn failure_applied(s: Seq<ProbeRecord>, seq: int, error: IcmpError) -> Seq<ProbeRecord> {
    if 0 <= seq < s.len() && s[seq].outcome is Pending {
        s.update(seq, ProbeRecord { sent_at: s[seq].sent_at, outcome: ProbeOutcome::Failed { error } })
    } else {
        s
    }
}

/// How many slots hold a received reply.
pub open spec fn count_received(s: Seq<ProbeRecord>) -> nat
    decreases s.len(),
{
    if s.len() == 0 {
        0
    } else {
        count_received(s.drop_last()) + (if s.last().outcome is Received { 1nat } else { 0nat })
    }
}

/// How many slots timed out.
pub open spec fn count_timed_out(s: Seq<ProbeRecord>) -> nat
    decreases s.len(),
{
    if s.len() == 0 {
        0
    } else {
        count_timed_out(s.drop_last()) + (if s.last().outcome is TimedOut { 1nat } else { 0nat })
    }
}

/// How many slots failed.
pub open spec fn count_failed(s: Seq<ProbeRecord>) -> nat
    decreases s.len(),
{
    if s.len() == 0 {
        0
    } else {
        count_failed(s.drop_last()) + (if s.last().outcome is Failed { 1nat } else { 0nat })
    }
}

/// How many slots are still pending.
pub open spec fn count_pending(s: Seq<ProbeRecord>) -> nat
    decreases s.len(),
{
    if s.len() == 0 {
        0
    } else {
        count_pending(s.drop_last()) + (if s.last().outcome is Pending { 1nat } else { 0nat })
    }
}

/// Every slot is in exactly one of the four states, so the four counts
/// partition the table: received + timed out + failed + pending equals the
/// number of probes sent. In particular, once nothing is pending,
/// received + timed out + failed == sent.
pub proof fn lemma_outcome_partition(s: Seq<ProbeRecord>)
    ensures
        count_received(s) + count_timed_out(s) + count_failed(s) + count_pending(s) == s.len(),
    decreases s.len(),
{
    if s.len() > 0 {
        lemma_outcome_partition(s.drop_last());
    }
}

/// The sum of all measured latencies, microseconds.
pub open spec fn total_latency(s: Seq<ProbeRecord>) -> int
    decreases s.len(),
{
    if s.len() == 0 {
        0
    } else {
        total_latency(s.drop_last()) + (match s.last().outcome {
            ProbeOutcome::Received { latency } => latency as int,
            _ => 0,
        })
    }
}

/// The correlation table. Append-only; one record per sequence number, in
/// send order.
pub struct CorrelationTable {
    records: Vec<ProbeRecord>,
}

impl View for CorrelationTable {
    type V = Seq<ProbeRecord>;

    closed spec fn view(&self) -> Seq<ProbeRecord> {
        self.records@
    }
}

impl CorrelationTable {
    /// The table's invariant: send instants never decrease.
    pub open spec fn wf(&self) -> bool {
        sends_monotonic(self@)
    }

    /// An empty table.
    pub fn new() -> (t: Self)
        ensures
            t@ =~= Seq::<ProbeRecord>::empty(),
            t.wf(),
    {
        CorrelationTable { records: Vec::new() }
    }

    /// How many probes have been registered.
    pub fn len(&self) -> (n: usize)
        ensures
            n == self@.len(),
    {
        self.records.len()
    }

    /// A copy of the record at `seq`.
    pub fn record_at(&self, seq: u16) -> (r: ProbeRecord)
        requires
            seq < self@.len(),
        ensures
            r == self@[seq as int],
    {
        self.records[seq as usize]
    }

    /// Appends the record for probe `seq`, sent now and still pending.
    /// Registration is strictly in order: `seq` must be the next free index,
    /// and the clock must not have moved backwards.
    pub fn register_send(&mut self, seq: u16, now: u64)
        requires
            old(self).wf(),
            old(self)@.len() == seq,
            old(self)@.len() > 0 ==> old(self)@.last().sent_at <= now,
        ensures
            final(self).wf(),
            final(self)@ == old(self)@.push(ProbeRecord { sent_at: now, outcome: ProbeOutcome::Pending }),
    {
        self.records.push(ProbeRecord { sent_at: now, outcome: ProbeOutcome::Pending });
    }

    /// Completes `seq` with a reply that arrived at `arrival`. Returns
    /// whether the slot changed: false means the slot was already terminal
    /// (a duplicate reply, or a reply after the timeout fired) and the call
    /// was a no-op, or that `seq` was never registered.
    pub fn complete_reply(&mut self, seq: u16, arrival: u64) -> (changed: bool)
        requires
            old(self).wf(),
            seq < old(self)@.len() ==> old(self)@[seq as int].sent_at <= arrival,
        ensures
            final(self).wf(),
            final(self)@ == reply_applied(old(self)@, seq as int, arrival),
            changed == (seq < old(self)@.len() && old(self)@[seq as int].outcome is Pending),
    {
        if (seq as usize) < self.records.len() {
            let rec = self.records[seq as usize];
            if let ProbeOutcome::Pending = rec.outcome {
                let latency: u64 = arrival - rec.sent_at;
                self.records.set(
                    seq as usize,
                    ProbeRecord { sent_at: rec.sent_at, outcome: ProbeOutcome::Received { latency } },
                );
                proof {
                    assert(self@ =~= reply_applied(old(self)@, seq as int, arrival));
                }
                return true;
            }
        }
        false
    }

    /// Completes `seq` as timed out. A no-op on a slot that is already
    /// terminal: a reply that beat the timeout keeps its latency.
    pub fn complete_timeout(&mut self, seq: u16) -> (changed: bool)
        requires
            old(self).wf(),
        ensures
            final(self).wf(),
            final(self)@ == timeout_applied(old(self)@, seq as int),
            changed == (seq < old(self)@.len() && old(self)@[seq as int].outcome is Pending),
    {
        if (seq as usize) < self.records.len() {
            let rec = self.records[seq as usize];
            if let ProbeOutcome::Pending = rec.outcome {
                self.records.set(
                    seq as usize,
                    ProbeRecord { sent_at: rec.sent_at, outcome: ProbeOutcome::TimedOut },
                );
                proof {
                    assert(self@ =~= timeout_applied(old(self)@, seq as int));
                }
                return true;
            }
        }
        false
    }

    /// Completes `seq` with a classified failure. A no-op on a slot that is
    /// already terminal.
    pub fn complete_failure(&mut self, seq: u16, error: IcmpError) -> (changed: bool)
        requires
            old(self).wf(),
        ensures
            final(self).wf(),
            final(self)@ == failure_applied(old(self)@, seq as int, error),
            changed == (seq < old(self)@.len() && old(self)@[seq as int].outcome is Pending),
    {
        if (seq as usize) < self.records.len() {
            let rec = self.records[seq as usize];
            if let ProbeOutcome::Pending = rec.outcome {
                self.records.set(
                    seq as usize,
                    ProbeRecord { sent_at: rec.sent_at, outcome: ProbeOutcome::Failed { error } },
                );
                proof {
                    assert(self@ =~= failure_applied(old(self)@, seq as int, error));
                }
                return true;
            }
        }
        false
    }
}

/// The aggregate snapshot of a run: outcome counts and the latency sum.
#[derive(Clone, Copy, Debug, PartialEq, Eq, Structural)]
pub struct PingSummary {
    /// Probes registered.
    pub sent: usize,
    /// Probes whose reply arrived.
    pub received: usize,
    /// Probes whose timeout fired first.
    pub timed_out: usize,
    /// Probes that failed to send or drew an ICMP error.
    pub failed: usize,
    /// Probes still outstanding.
    pub pending: usize,
    /// Sum of all measured latencies, microseconds.
    pub total_latency_micros: u128,
}

impl CorrelationTable {
    /// Counts every outcome and sums the measured latencies in one pass.
    pub fn summary(&self) -> (s: PingSummary)
        ensures
            s.sent == self@.len(),
            s.received == count_received(self@),
            s.timed_out == count_timed_out(self@),
            s.failed == count_failed(self@),
            s.pending == count_pending(self@),
            s.total_latency_micros == total_latency(self@),
    {
        let n: usize = self.records.len();
        let mut received: usize = 0;
        let mut timed_out: usize = 0;
        let mut failed: usize = 0;
        let mut pending: usize = 0;
        let mut total: u128 = 0;
        let mut i: usize = 0;
        while i < n
            invariant
                n == self@.len(),
                i <= n,
                received == count_received(self@.take(i as int)),
                timed_out == count_timed_out(self@.take(i as int)),
                failed == count_failed(self@.take(i as int)),
                pending == count_pending(self@.take(i as int)),
                total == total_latency(self@.take(i as int)),
                received + timed_out + failed + pending == i,
                total <= i * 0xFFFF_FFFF_FFFF_FFFF,
            decreases n - i,
        {
            proof {
                assert(self@.take(i + 1).drop_last() =~= self@.take(i as int));
                assert(self@.take(i + 1).last() == self@[i as int]);
                assert((i + 1) * 0xFFFF_FFFF_FFFF_FFFF == i * 0xFFFF_FFFF_FFFF_FFFF
                    + 0xFFFF_FFFF_FFFF_FFFF) by (nonlinear_arith);
                assert(i * 0xFFFF_FFFF_FFFF_FFFF <= 0xFFFF_FFFF_FFFF_FFFF_FFFF_FFFF_FFFF_FFFF
                    - 0xFFFF_FFFF_FFFF_FFFF) by (nonlinear_arith)
                    requires i <= 0xFFFF_FFFF_FFFF_FFFF;
            }
            match self.records[i].outcome {
                ProbeOutcome::Pending => {
                    pending = pending + 1;
                },
                ProbeOutcome::Received { latency } => {
                    received = received + 1;
                    total = total + latency as u128;
                },
                ProbeOutcome::TimedOut => {
                    timed_out = timed_out + 1;
                },
                ProbeOutcome::Failed { .. } => {
                    failed = failed + 1;
                },
            }
            i = i + 1;
        }
        proof {
            assert(self@.take(n as int) =~= self@);
        }
        PingSummary { sent: n, received, timed_out, failed, pending, total_latency_micros: total }
    }
}

/// The lost fraction of a run, in thousandths: `(sent - received) * 1000 /
/// sent`, and zero for an empty run.
pub fn loss_permille(sent: usize, received: usize) -> (r: u64)
    requires
        received <= sent,
        sent <= 0x1_0000,
    ensures
        r == if sent == 0 {
            0int
        } else {
            (sent - received) * 1000 / (sent as int)
        },
{
    if sent == 0 {
        0
    } else {
        ((sent - received) as u64 * 1000) / (sent as u64)
    }
}

/// The mean measured latency in microseconds: the latency sum over the
/// reply count, and zero when nothing was received.
pub fn average_latency_micros(total_latency: u128, received: usize) -> (r: u64)
    requires
        total_latency <= received * 0xFFFF_FFFF_FFFF_FFFF,
    ensures
        r == if received == 0 {
            0int
        } else {
            total_latency as int / received as int
        },
{
    if received == 0 {
        0
    } else {
        let avg: u128 = total_latency / (received as u128);
        proof {
            assert(total_latency / (received as u128) <= 0xFFFF_FFFF_FFFF_FFFF) by (nonlinear_arith)
                requires received >= 1, total_latency <= received * 0xFFFF_FFFF_FFFF_FFFF;
        }
        avg as u64
    }
}

/// A completion never rewrites a slot that is already terminal, and never
/// touches any other slot: every record leaves `Pending` at most once,
/// whichever of the three completions is applied and in whatever order.
pub proof fn lemma_terminal_is_stable(s: Seq<ProbeRecord>, seq: int, arrival: u64, error: IcmpError)
    ensures
        forall|i: int|
            0 <= i < s.len() && is_terminal(s[i].outcome) ==> reply_applied(s, seq, arrival)[i] == s[i],
        forall|i: int|
            0 <= i < s.len() && is_terminal(s[i].outcome) ==> timeout_applied(s, seq)[i] == s[i],
        forall|i: int|
            0 <= i < s.len() && is_terminal(s[i].outcome) ==> failure_applied(s, seq, error)[i] == s[i],
{
}

} // verus!
