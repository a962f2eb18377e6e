//! The advertisement scheduler: when the node broadcasts an offer of its free
//! capacity, and what the offer says.
//!
//! The scheduler keeps no clock. The caller hands it the time in seconds, on
//! any scale that does not run backwards.

use vstd::prelude::*;
use crate::command::{Command, CommandView};
use crate::ledger::{LedgerView, ResourceLedger};

verus! {

/// The seconds between two advertisements unless configured otherwise.
pub const DEFAULT_INTERVAL_SECS: u64 = 60;

/// The offer that advertises a ledger's state.
pub open spec fn offer_of(s: LedgerView) -> CommandView {
    CommandView::ResourceOffer {
        cpu_cores: s.available_cpu,
        memory_mb: s.available_memory_mb,
        storage_gb: s.available_storage_gb,
        bandwidth_mbps: s.available_bandwidth_mbps,
        node_id: s.node_id,
    }
}

/// Builds the offer that advertises the ledger's current state, from one
/// snapshot of it.
pub fn advertisement(ledger: &ResourceLedger) -> (offer: Command)
    ensures
        offer@ == offer_of(ledger@),
{
    let snapshot = ledger.snapshot();
    Command::ResourceOffer {
        cpu_cores: snapshot.cpu_cores,
        memory_mb: snapshot.memory_mb,
        storage_gb: snapshot.storage_gb,
        bandwidth_mbps: snapshot.bandwidth_mbps,
        node_id: snapshot.node_id,
    }
}

/// Fires once every interval.
#[derive(Debug, Clone, Copy, PartialEq, Eq, Structural)]
pub struct AdvertisementScheduler {
    pub interval_secs: u64,
    pub last_fired: u64,
}

impl AdvertisementScheduler {
    /// Whether an advertisement is due at time `now`: a full interval has
    /// passed since the scheduler last fired, or was started.
    pub open spec fn due(self, now: u64) -> bool {
        now >= self.last_fired && now - self.last_fired >= self.interval_secs
    }

    /// The scheduler after it was asked at time `now`.
    pub open spec fn after(self, now: u64) -> AdvertisementScheduler {
        if self.due(now) {
            AdvertisementScheduler { last_fired: now, ..self }
        } else {
            self
        }
    }

    /// A scheduler started at time `now`.
    pub fn new(interval_secs: u64, now: u64) -> (r: AdvertisementScheduler)
        ensures
            r == (AdvertisementScheduler { interval_secs, last_fired: now }),
    {
        AdvertisementScheduler { interval_secs, last_fired: now }
    }

    /// Asks the scheduler at time `now`. Where an advertisement is due it
    /// fires: it returns the offer for the ledger's current state and waits a
    /// full interval from `now` before it fires again.
    pub fn poll(&mut self, now: u64, ledger: &ResourceLedger) -> (offer: Option<Command>)
        ensures
            *final(self) == old(self).after(now),
            match offer {
                Some(command) => old(self).due(now) && command@ == offer_of(ledger@),
                None => !old(self).due(now),
            },
    {
        if now >= self.last_fired && now - self.last_fired >= self.interval_secs {
            self.last_fired = now;
            Some(advertisement(ledger))
        } else {
            None
        }
    }
}

/// Once the scheduler has fired, it does not fire again before a full
/// interval has passed.
pub proof fn lemma_fires_once_per_interval(s: AdvertisementScheduler, now: u64, later: u64)
    requires
        s.due(now),
        now <= later,
        later - now < s.interval_secs,
    ensures
        !s.after(now).due(later),
{
}

/// The scheduler fires as soon as a full interval has passed, and not
/// before.
pub proof fn lemma_fires_when_interval_elapsed(s: AdvertisementScheduler, now: u64)
    requires
        now >= s.last_fired,
    ensures
        s.due(now) <==> now - s.last_fired >= s.interval_secs,
{
}

} // verus!
