//! The probe scheduler: the decisions of the completion-driven event loop.
//!
//! The loop around the library owns a set of pending scheduled units, one
//! delay-then-probe work item per tracked host, and repeatedly waits for
//! whichever of them completes first, racing against a shutdown signal.
//! The [`Scheduler`] holds the state those decisions read and write: each
//! host's running statistics and the count of its scheduled units still in
//! flight. [`Scheduler::on_completion`] consumes one completed unit,
//! updates the statistics when the probe yielded a sample, and arms the
//! next unit for the same host in the same step, so each tracked host has
//! exactly one unit in flight at every instant the loop can observe.
//! [`Scheduler::on_shutdown`] stops the loop: a stopped scheduler accepts
//! no further completions, so nothing is reported after shutdown.

use crate::stats::LatencyStats;
use crate::stats::centi_average;
use vstd::prelude::*;

verus! {

/// Fixed delay between two probes of the same host, in milliseconds.
pub const INTER_PROBE_DELAY_MS: u64 = 500;

/// Exclusive upper bound of the randomized initial jitter delay, in
/// milliseconds.
pub const JITTER_BOUND_MS: u64 = 500;

/// Bounded wait for one echo reply, in milliseconds.
pub const PROBE_TIMEOUT_MS: u64 = 250;

/// Identifier stamped on every echo request this process sends.
pub const ECHO_IDENT: u16 = 0xabcd;

/// Sequence number carried by every echo request.
pub const ECHO_SEQUENCE: u16 = 0;

/// Why a probe cycle produced no sample.
#[derive(PartialEq, Eq, Structural, Clone, Copy, Debug)]
pub enum ProbeError {
    /// The host string does not parse as a dotted-quad address.
    HostAddressInvalid,
    /// The transport failed to send the request or receive the reply.
    TransportFailure,
}

/// What one completed scheduled unit reports to the loop.
#[derive(PartialEq, Eq, Structural, Clone, Copy, Debug)]
pub enum ProbeOutcome {
    /// A reply arrived within the bounded wait: the round trip took this
    /// many milliseconds.
    Sample(u64),
    /// No reply within the bounded wait: a normal no-sample round.
    Timeout,
    /// The probe could not be carried out.
    Failed(ProbeError),
}

/// What one status line reports: this round's sample and the updated
/// running average in hundredths of a millisecond.
#[derive(PartialEq, Eq, Structural, Clone, Copy, Debug)]
pub struct StatusUpdate {
    pub latency_ms: u64,
    pub avg_centi_ms: u128,
}

/// What the loop must do after one completion: arm a new scheduled unit
/// for the same host with this delay, print one status line if a sample
/// arrived, and print one diagnostic if the probe failed.
#[derive(PartialEq, Eq, Structural, Clone, Copy, Debug)]
pub struct Rearm {
    pub delay_ms: u64,
    pub status: Option<StatusUpdate>,
    pub diagnostic: Option<ProbeError>,
}

/// One tracked host's cycle: its name, its running statistics, and how
/// many of its scheduled units are in flight.
pub struct HostCycle {
    host: String,
    stats: LatencyStats,
    units_in_flight: u32,
}

impl HostCycle {
    /// The host's name, as registered.
    pub closed spec fn hostname(self) -> Seq<char> {
        self.host@
    }

    /// The host's running statistics.
    pub closed spec fn stats(self) -> LatencyStats {
        self.stats
    }

    /// How many scheduled units of this host are in flight.
    pub closed spec fn units(self) -> int {
        self.units_in_flight as int
    }
}

/// Relies on rand::random_range: a delay drawn uniformly from the range
/// below the jitter bound, so that the hosts' first probes do not fire in
/// one synchronized burst.
#[verifier::external_body]
fn draw_jitter() -> (r: u64)
    ensures
        r < JITTER_BOUND_MS,
{
    rand::random_range(0..JITTER_BOUND_MS)
}

/// The scheduler: one cycle per tracked host, and whether the loop is
/// still running.
pub struct Scheduler {
    hosts: Vec<HostCycle>,
    running: bool,
}

impl Scheduler {
    /// The tracked hosts' cycles, in registration order.
    pub closed spec fn cycles(self) -> Seq<HostCycle> {
        self.hosts@
    }

    /// Whether the loop is still running; a scheduler that has seen the
    /// shutdown signal accepts no further completions.
    pub closed spec fn is_running(self) -> bool {
        self.running
    }

    /// How many hosts are tracked.
    pub open spec fn host_count(self) -> int {
        self.cycles().len() as int
    }

    /// Well-formedness: every tracked host has at most one scheduled unit
    /// in flight — exactly one while the loop runs, so the pending set
    /// stays as large as the host set and never grows — and its running
    /// statistics are well formed.
    pub open spec fn wf(self) -> bool {
        forall|i: int|
            0 <= i < self.host_count() ==> {
                &&& (#[trigger] self.cycles()[i]).units() <= 1
                &&& (self.is_running() ==> self.cycles()[i].units() == 1)
                &&& self.cycles()[i].stats().wf()
            }
    }

    /// A fresh scheduler: no hosts tracked, loop running.
    pub fn new() -> (s: Self)
        ensures
            s.wf(),
            s.is_running(),
            s.host_count() == 0,
    {
        Scheduler { hosts: Vec::new(), running: true }
    }

    /// Tracks one more host: a zero-valued accumulator entry and one
    /// first scheduled unit, to be armed with a randomized jitter delay.
    /// Returns the host's index and that initial delay.
    pub fn register(&mut self, host: String) -> (r: (usize, u64))
        requires
            old(self).wf(),
            old(self).is_running(),
            old(self).host_count() < usize::MAX,
        ensures
            final(self).wf(),
            final(self).is_running(),
            r.0 == old(self).host_count(),
            r.1 < JITTER_BOUND_MS,
            final(self).host_count() == old(self).host_count() + 1,
            forall|i: int|
                0 <= i < old(self).host_count() ==> final(self).cycles()[i] == old(
                    self,
                ).cycles()[i],
            final(self).cycles()[r.0 as int].hostname() == host@,
            final(self).cycles()[r.0 as int].stats().count() == 0,
            final(self).cycles()[r.0 as int].stats().history() == Seq::<u64>::empty(),
            final(self).cycles()[r.0 as int].units() == 1,
    {
        let idx = self.hosts.len();
        let jitter = draw_jitter();
        let cycle = HostCycle { host, stats: LatencyStats::new(), units_in_flight: 1 };
        self.hosts.push(cycle);
        (idx, jitter)
    }

    /// Consumes one completed scheduled unit of the given host and arms
    /// the next one. A sample updates that host's statistics and is
    /// reported in a status line; a timeout or a failure leaves the
    /// statistics untouched; a failure is reported in a diagnostic. No
    /// other host's cycle changes, and the host keeps exactly one unit in
    /// flight.
    pub fn on_completion(&mut self, host: usize, outcome: ProbeOutcome) -> (d: Rearm)
        requires
            old(self).wf(),
            old(self).is_running(),
            host < old(self).host_count(),
            old(self).cycles()[host as int].stats().count() < u32::MAX,
        ensures
            final(self).wf(),
            final(self).is_running(),
            final(self).host_count() == old(self).host_count(),
            forall|i: int|
                0 <= i < old(self).host_count() && i != host ==> final(self).cycles()[i] == old(
                    self,
                ).cycles()[i],
            final(self).cycles()[host as int].hostname() == old(self).cycles()[
                host as int
            ].hostname(),
            final(self).cycles()[host as int].units() == 1,
            d.delay_ms == INTER_PROBE_DELAY_MS,
            match outcome {
                ProbeOutcome::Sample(latency_ms) => {
                    &&& final(self).cycles()[host as int].stats().history() == old(self).cycles()[
                        host as int
                    ].stats().history().push(latency_ms)
                    &&& final(self).cycles()[host as int].stats().count() == old(self).cycles()[
                        host as int
                    ].stats().count() + 1
                    &&& final(self).cycles()[host as int].stats().total() == old(self).cycles()[
                        host as int
                    ].stats().total() + latency_ms
                    &&& d.status == Some(
                        (StatusUpdate {
                            latency_ms,
                            avg_centi_ms: centi_average(
                                old(self).cycles()[host as int].stats().total() + latency_ms,
                                old(self).cycles()[host as int].stats().count() + 1,
                            ) as u128,
                        }),
                    )
                    &&& d.diagnostic is None
                },
                ProbeOutcome::Timeout => {
                    &&& final(self).cycles()[host as int].stats() == old(self).cycles()[
                        host as int
                    ].stats()
                    &&& d.status is None
                    &&& d.diagnostic is None
                },
                ProbeOutcome::Failed(err) => {
                    &&& final(self).cycles()[host as int].stats() == old(self).cycles()[
                        host as int
                    ].stats()
                    &&& d.status is None
                    &&& d.diagnostic == Some(err)
                },
            },
    {
        match outcome {
            ProbeOutcome::Sample(latency_ms) => {
                let cycle = &mut self.hosts[host];
                cycle.stats.update(latency_ms);
                let avg = cycle.stats.average_centi();
                Rearm {
                    delay_ms: INTER_PROBE_DELAY_MS,
                    status: Some(StatusUpdate { latency_ms, avg_centi_ms: avg }),
                    diagnostic: None,
                }
            },
            ProbeOutcome::Timeout => Rearm {
                delay_ms: INTER_PROBE_DELAY_MS,
                status: None,
                diagnostic: None,
            },
            ProbeOutcome::Failed(err) => Rearm {
                delay_ms: INTER_PROBE_DELAY_MS,
                status: None,
                diagnostic: Some(err),
            },
        }
    }

    /// Takes the shutdown signal: the loop stops, no further completions
    /// are accepted, and the pending units are abandoned with every
    /// host's cycle left as it stands.
    pub fn on_shutdown(&mut self)
        requires
            old(self).wf(),
            old(self).is_running(),
        ensures
            final(self).wf(),
            !final(self).is_running(),
            final(self).cycles() == old(self).cycles(),
    {
        self.running = false;
        proof {
            assert(self.cycles() == old(self).cycles());
        }
    }

    /// How many hosts are tracked.
    pub fn tracked_hosts(&self) -> (r: usize)
        ensures
            r == self.host_count(),
    {
        self.hosts.len()
    }

    /// Whether the loop is still running.
    pub fn running(&self) -> (r: bool)
        ensures
            r == self.is_running(),
    {
        self.running
    }

    /// How many scheduled units the given host has in flight.
    pub fn units_in_flight(&self, host: usize) -> (r: u32)
        requires
            host < self.host_count(),
        ensures
            r == self.cycles()[host as int].units(),
    {
        self.hosts[host].units_in_flight
    }

    /// The given host's running statistics.
    pub fn stats_of(&self, host: usize) -> (r: &LatencyStats)
        requires
            host < self.host_count(),
        ensures
            *r == self.cycles()[host as int].stats(),
    {
        &self.hosts[host].stats
    }

    /// The given host's name, as registered.
    pub fn host_name(&self, host: usize) -> (r: &String)
        requires
            host < self.host_count(),
        ensures
            r@ == self.cycles()[host as int].hostname(),
    {
        &self.hosts[host].host
    }
}

/// Law: at any instant, a well-formed scheduler has at most one scheduled
/// unit in flight per tracked host, and exactly one while the loop is
/// running.
pub proof fn lemma_one_unit_per_host(s: Scheduler, i: int)
    requires
        s.wf(),
        0 <= i < s.host_count(),
    ensures
        s.cycles()[i].units() <= 1,
        s.is_running() ==> s.cycles()[i].units() == 1,
{
}

} // verus!
