use vstd::prelude::*;

use crate::network::{CurrentNetwork, ScanResult, ScanSnapshot, WifiNetwork};
use crate::reconcile::{reconcile, reconciled};

verus! {

/// Why a refresh produced no snapshot.
#[derive(Debug, Clone, PartialEq, Eq)]
pub enum ScanError {
    /// The raw scan failed; the text is the scanner's own description.
    ScanFailed(String),
}

/// The snapshot a refresh builds from the platform readings and a successful raw scan.
pub open spec fn fresh_snapshot(
    permission: String,
    current: Option<CurrentNetwork>,
    known: Seq<String>,
    raw: Seq<WifiNetwork>,
) -> ScanSnapshot {
    ScanSnapshot {
        networks: reconciled(raw, current),
        location_permission: permission,
        current_network: current,
        known_ssids: known,
    }
}

/// The content of a refresh outcome.
pub open spec fn outcome_view(o: Result<ScanResult, ScanError>) -> Result<ScanSnapshot, ScanError> {
    match o {
        Ok(r) => Ok(r@),
        Err(e) => Err(e),
    }
}

/// The cache slot after a refresh with the given outcome: replaced on success,
/// untouched on failure.
pub open spec fn after_refresh(
    slot: Option<ScanSnapshot>,
    outcome: Result<ScanSnapshot, ScanError>,
) -> Option<ScanSnapshot> {
    match outcome {
        Ok(v) => Some(v),
        Err(_) => slot,
    }
}

/// Whether a cached read must refresh: only while nothing was ever published.
pub open spec fn needs_refresh(slot: Option<ScanSnapshot>) -> bool {
    slot is None
}

/// The slot after a run of refreshes, applied in order.
pub open spec fn after_refreshes(
    slot: Option<ScanSnapshot>,
    outcomes: Seq<Result<ScanSnapshot, ScanError>>,
) -> Option<ScanSnapshot>
    decreases outcomes.len(),
{
    if outcomes.len() == 0 {
        slot
    } else {
        after_refreshes(after_refresh(slot, outcomes[0]), outcomes.drop_first())
    }
}

/// Turns the platform readings and the outcome of a raw scan into a snapshot,
/// or into `ScanFailed` when the raw scan failed.
pub fn build_scan_result(
    permission: String,
    current: Option<CurrentNetwork>,
    known: Vec<String>,
    raw: Result<Vec<WifiNetwork>, String>,
) -> (r: Result<ScanResult, ScanError>)
    ensures
        match raw {
            Ok(v) => outcome_view(r) == Ok::<ScanSnapshot, ScanError>(
                fresh_snapshot(permission, current, known@, v@),
            ),
            Err(e) => r == Err::<ScanResult, ScanError>(ScanError::ScanFailed(e)),
        },
{
    match raw {
        Ok(v) => {
            let networks = reconcile(&v, &current);
            Ok(
                ScanResult {
                    networks,
                    location_permission: permission,
                    current_network: current,
                    known_ssids: known,
                },
            )
        },
        Err(e) => Err(ScanError::ScanFailed(e)),
    }
}

/// What a cached read decides.
#[derive(Debug)]
pub enum CacheLookup {
    /// The cache holds a snapshot: answer with this copy of it.
    Cached(ScanResult),
    /// The cache is empty: one synchronous refresh is needed.
    Refresh,
}

/// The single slot that holds the latest published snapshot.
pub struct ScanCache {
    slot: Option<ScanResult>,
}

impl View for ScanCache {
    type V = Option<ScanSnapshot>;

    closed spec fn view(&self) -> Option<ScanSnapshot> {
        match self.slot {
            Some(r) => Some(r@),
            None => None,
        }
    }
}

impl ScanCache {
    /// An empty cache.
    pub fn new() -> (r: ScanCache)
        ensures
            r@ == None::<ScanSnapshot>,
    {
        ScanCache { slot: None }
    }

    /// A copy of the published snapshot, if any.
    pub fn current(&self) -> (r: Option<ScanResult>)
        ensures
            match r {
                Some(v) => self@ == Some(v@),
                None => self@ == None::<ScanSnapshot>,
            },
    {
        match &self.slot {
            Some(v) => Some(v.copy()),
            None => None,
        }
    }

    /// The decision of a cached read: the snapshot when there is one, a
    /// refresh only when the cache was never filled.
    pub fn lookup(&self) -> (r: CacheLookup)
        ensures
            match r {
                CacheLookup::Cached(v) => self@ == Some(v@),
                CacheLookup::Refresh => self@ == None::<ScanSnapshot>,
            },
            (r is Refresh) == needs_refresh(self@),
    {
        match &self.slot {
            Some(v) => CacheLookup::Cached(v.copy()),
            None => CacheLookup::Refresh,
        }
    }

    /// Replaces the slot wholesale.
    pub fn publish(&mut self, result: ScanResult)
        ensures
            final(self)@ == Some(result@),
    {
        self.slot = Some(result);
    }

    /// Applies the outcome of a synchronous refresh: a snapshot is published
    /// and returned, a failure leaves the cache as it was and is returned.
    pub fn complete_refresh(&mut self, outcome: Result<ScanResult, ScanError>) -> (r: Result<
        ScanResult,
        ScanError,
    >)
        ensures
            final(self)@ == after_refresh(old(self)@, outcome_view(outcome)),
            outcome_view(r) == outcome_view(outcome),
    {
        match outcome {
            Ok(v) => {
                let answer = v.copy();
                self.publish(v);
                Ok(answer)
            },
            Err(e) => Err(e),
        }
    }
}

proof fn lemma_filled_stays_filled(slot: Option<ScanSnapshot>, outcomes: Seq<Result<ScanSnapshot, ScanError>>)
    requires
        slot is Some,
    ensures
        after_refreshes(slot, outcomes) is Some,
    decreases outcomes.len(),
{
    if outcomes.len() > 0 {
        lemma_filled_stays_filled(after_refresh(slot, outcomes[0]), outcomes.drop_first());
    }
}

/// A read of the empty cache asks for one refresh; once that refresh has
/// published its snapshot the cache holds it, and whatever later refreshes
/// bring, no read asks for a refresh again.
pub proof fn lemma_cold_read_refreshes_once(
    v: ScanSnapshot,
    later: Seq<Result<ScanSnapshot, ScanError>>,
)
    ensures
        needs_refresh(None),
        after_refresh(None, Ok(v)) == Some(v),
        !needs_refresh(after_refreshes(after_refresh(None, Ok(v)), later)),
{
    lemma_filled_stays_filled(Some(v), later);
}

/// A forced refresh that succeeds publishes its snapshot whatever the cache
/// held, so the next read answers with it; one that fails leaves the cache as
/// it was.
pub proof fn lemma_forced_refresh_is_next_read(
    slot: Option<ScanSnapshot>,
    outcome: Result<ScanSnapshot, ScanError>,
)
    ensures
        outcome is Ok ==> after_refresh(slot, outcome) == Some(outcome->Ok_0),
        outcome is Ok ==> !needs_refresh(after_refresh(slot, outcome)),
        outcome is Err ==> after_refresh(slot, outcome) == slot,
{
}

} // verus!
