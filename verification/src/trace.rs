//! The traceroute driver as an explicit state machine.
//!
//! The driver sends one echo request per hop-limit value, starting at 1,
//! and races the reply against a timeout. Each round yields one hop event;
//! the engine records one hop result per round and decides whether to probe
//! further. The run ends when the destination itself answers with an echo
//! reply or when the hop-limit ceiling is reached.

use vstd::prelude::*;

verus! {

/// The hop-limit ceiling: rounds probe TTL 1 up to at most this value.
pub const MAX_TRACE_TTL: u8 = 127;

/// What one traceroute round observed.
#[derive(Clone, Copy, Debug, PartialEq, Eq, Structural)]
pub enum HopEvent {
    /// The destination answered: `addr` is its IPv4 address in 32-bit form
    /// and `elapsed_micros` the round-trip time.
    EchoReply { addr: u32, elapsed_micros: u64 },
    /// A transit router exhausted the probe's hop limit and said so.
    TimeExceeded { addr: u32, elapsed_micros: u64 },
    /// The round drew some other classified error, or a message the parser
    /// rejected; the hop is recorded as silent.
    OtherError,
    /// Nothing arrived within the timeout.
    Timeout,
}

/// One answered hop: who answered and after how long.
#[derive(Clone, Copy, Debug, PartialEq, Eq, Structural)]
pub struct Hop {
    /// The responding node's IPv4 address in 32-bit form.
    pub addr: u32,
    /// Round-trip time to that node, microseconds.
    pub elapsed_micros: u64,
}

/// The hop result one round records: the answering node, or nothing for a
/// round that stayed silent.
pub open spec fn spec_hop_of(ev: HopEvent) -> Option<Hop> {
    match ev {
        HopEvent::EchoReply { addr, elapsed_micros } => Some(Hop { addr, elapsed_micros }),
        HopEvent::TimeExceeded { addr, elapsed_micros } => Some(Hop { addr, elapsed_micros }),
        HopEvent::OtherError => None,
        HopEvent::Timeout => None,
    }
}

/// The traceroute state: the hops recorded so far, in TTL order starting at
/// 1, and whether the run has ended.
pub struct TraceEngine {
    hops: Vec<Option<Hop>>,
    done: bool,
}

impl TraceEngine {
    /// The hops recorded so far; entry `k` belongs to TTL `k + 1`.
    pub closed spec fn hops_view(&self) -> Seq<Option<Hop>> {
        self.hops@
    }

    /// Whether the run has ended.
    pub closed spec fn is_done(&self) -> bool {
        self.done
    }

    /// The invariant: never more rounds than the ceiling, and a run that
    /// has used up the ceiling is over.
    pub open spec fn wf(&self) -> bool {
        &&& self.hops_view().len() <= MAX_TRACE_TTL
        &&& self.hops_view().len() == MAX_TRACE_TTL ==> self.is_done()
    }

    /// A fresh trace: no hops, not done.
    pub fn new() -> (t: Self)
        ensures
            t.wf(),
            t.hops_view() =~= Seq::<Option<Hop>>::empty(),
            !t.is_done(),
    {
        TraceEngine { hops: Vec::new(), done: false }
    }

    /// The hop limit for the next round, or nothing once the run is over.
    /// Hop limits are probed in order: 1, 2, 3, ...
    pub fn next_ttl(&self) -> (r: Option<u8>)
        requires
            self.wf(),
        ensures
            r == if self.is_done() {
                None::<u8>
            } else {
                Some((self.hops_view().len() + 1) as u8)
            },
    {
        if self.done {
            None
        } else {
            Some(self.hops.len() as u8 + 1)
        }
    }

    /// Records the outcome of one round. An answer names the hop; silence,
    /// and messages that could not be classified as an answer, record a
    /// gap. The run ends when the destination's own echo reply arrives or
    /// when the ceiling round completes.
    pub fn on_hop_event(&mut self, ev: HopEvent)
        requires
            old(self).wf(),
            !old(self).is_done(),
        ensures
            final(self).wf(),
            final(self).hops_view() == old(self).hops_view().push(spec_hop_of(ev)),
            final(self).is_done() == (ev is EchoReply || final(self).hops_view().len()
                == MAX_TRACE_TTL),
    {
        let hop: Option<Hop> = match ev {
            HopEvent::EchoReply { addr, elapsed_micros } => Some(Hop { addr, elapsed_micros }),
            HopEvent::TimeExceeded { addr, elapsed_micros } => Some(Hop { addr, elapsed_micros }),
            HopEvent::OtherError => None,
            HopEvent::Timeout => None,
        };
        self.hops.push(hop);
        let reached = matches!(ev, HopEvent::EchoReply { .. });
        if reached || self.hops.len() >= MAX_TRACE_TTL as usize {
            self.done = true;
        }
    }

    /// A copy of the recorded hop list, one entry per probed TTL in order.
    pub fn hops(&self) -> (r: Vec<Option<Hop>>)
        ensures
            r@ == self.hops_view(),
    {
        let n: usize = self.hops.len();
        let mut r: Vec<Option<Hop>> = Vec::new();
        let mut i: usize = 0;
        while i < n
            invariant
                n == self.hops@.len(),
                i <= n,
                r@ =~= self.hops@.take(i as int),
            decreases n - i,
        {
            r.push(self.hops[i]);
            i = i + 1;
        }
        proof {
            assert(r@ =~= self.hops@);
        }
        r
    }
}

} // verus!
