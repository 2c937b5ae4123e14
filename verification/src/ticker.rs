//! Externally sourced price snapshots and the cache that keeps the freshest
//! one per ticker.

use vstd::prelude::*;
use crate::numeric::MmNumber;
use crate::provider::Provider;
use crate::registry::Registry;

verus! {

/// The last known externally sourced figures for one ticker: price, update
/// time and timestamp, 24-hour volume, an optional 7-day trend series, and
/// the 24-hour change, with price, volume, trend and change each tagged
/// independently with the provider it came from.
#[derive(Clone, Debug, PartialEq)]
pub struct TickerInfos {
    pub ticker: String,
    pub last_price: String,
    pub last_updated: String,
    pub last_updated_timestamp: i64,
    pub volume24_h: String,
    pub price_provider: Provider,
    pub volume_provider: Provider,
    pub sparkline_7_d: Option<Vec<MmNumber>>,
    pub sparkline_provider: Provider,
    pub change_24_h: String,
    pub change_24_h_provider: Provider,
}

impl TickerInfos {
    /// Every point of the trend series, if one is present, is a well-formed
    /// rational.
    pub open spec fn wf(&self) -> bool {
        match self.sparkline_7_d {
            Some(points) => forall|i: int| 0 <= i < points@.len() ==> points@[i].wf(),
            None => true,
        }
    }
}

/// What a publish leaves in the cache: the snapshot is stored under the
/// ticker when no entry exists yet or the stored entry's timestamp is at most
/// the snapshot's; an out-of-date snapshot leaves the cache untouched.
/// Replacement is of the whole snapshot: no field-level merge.
pub open spec fn publish_effect(
    pre: Map<Seq<char>, TickerInfos>,
    ticker: Seq<char>,
    snapshot: TickerInfos,
) -> Map<Seq<char>, TickerInfos> {
    if !pre.contains_key(ticker) || pre[ticker].last_updated_timestamp
        <= snapshot.last_updated_timestamp {
        pre.insert(ticker, snapshot)
    } else {
        pre
    }
}

/// For a ticker already stored, a publish never decreases the stored
/// timestamp, whether the write is applied or dropped: stored timestamps are
/// monotonically non-decreasing across successive writes.
pub proof fn lemma_timestamp_monotone(
    pre: Map<Seq<char>, TickerInfos>,
    ticker: Seq<char>,
    snapshot: TickerInfos,
)
    requires
        pre.contains_key(ticker),
    ensures
        publish_effect(pre, ticker, snapshot).contains_key(ticker),
        publish_effect(pre, ticker, snapshot)[ticker].last_updated_timestamp >= pre[
            ticker
        ].last_updated_timestamp,
{
}

/// The price cache: maps each ticker to the last known snapshot, accepting a
/// new snapshot only when its timestamp is not older than the stored one.
pub struct PriceCache {
    entries: Registry<TickerInfos>,
}

/// The registry of ticker snapshots: one freshest snapshot per ticker.
pub type TickerInfosRegistry = PriceCache;

impl View for PriceCache {
    type V = Map<Seq<char>, TickerInfos>;

    closed spec fn view(&self) -> Map<Seq<char>, TickerInfos> {
        self.entries@
    }
}

impl PriceCache {
    /// Structural invariant: the underlying table is well formed and so is
    /// every stored snapshot.
    pub closed spec fn wf(&self) -> bool {
        &&& self.entries.wf()
        &&& forall|t: Seq<char>| self@.contains_key(t) ==> self@[t].wf()
    }

    /// An empty cache.
    pub fn new() -> (r: Self)
        ensures
            r.wf(),
            r@ == Map::<Seq<char>, TickerInfos>::empty(),
    {
        PriceCache { entries: Registry::new() }
    }

    /// Store `snapshot` under `ticker` if the cache has no entry for the
    /// ticker yet or the snapshot's timestamp is at least the stored one;
    /// an older snapshot is silently dropped, leaving the stored entry
    /// untouched. Replacement is of the whole snapshot: no field-level merge.
    pub fn publish(&mut self, ticker: String, snapshot: TickerInfos)
        requires
            old(self).wf(),
            snapshot.wf(),
        ensures
            final(self).wf(),
            final(self)@ == publish_effect(old(self)@, ticker@, snapshot),
    {
        let fresh = match self.entries.get(&ticker) {
            Some(stored) => stored.last_updated_timestamp <= snapshot.last_updated_timestamp,
            None => true,
        };
        if fresh {
            let ghost key = ticker@;
            let ghost pre = self.entries@;
            let ghost gsnap = snapshot;
            self.entries.insert(ticker, snapshot);
            proof {
                assert(pre == old(self)@);
                assert(self.entries@ == pre.insert(key, gsnap));
                assert forall|t: Seq<char>| self.entries@.contains_key(t) implies self.entries@[
                    t
                ].wf() by {
                    if t != key {
                        assert(pre.contains_key(t));
                        assert(pre[t].wf());
                        assert(self.entries@[t] == pre[t]);
                    } else {
                        assert(self.entries@[t] == gsnap);
                    }
                }
            }
        }
    }

    /// The stored snapshot of `ticker`, exactly when one is stored; a reader
    /// never observes a partially written snapshot.
    pub fn get<'a>(&'a self, ticker: &String) -> (r: Option<&'a TickerInfos>)
        requires
            self.wf(),
        ensures
            match r {
                Some(v) => self@.contains_key(ticker@) && *v == self@[ticker@] && v.wf(),
                None => !self@.contains_key(ticker@),
            },
    {
        self.entries.get(ticker)
    }

    /// A consistent snapshot of every stored entry: the returned entries have
    /// distinct keys and denote exactly the cache's map.
    pub fn list(&self) -> (r: &Vec<(String, TickerInfos)>)
        requires
            self.wf(),
        ensures
            crate::registry::distinct_keys(r@),
            crate::registry::entry_map(r@) == self@,
    {
        self.entries.snapshot()
    }

    /// Number of tickers stored.
    pub fn len(&self) -> (n: usize)
        requires
            self.wf(),
        ensures
            n == self@.dom().len(),
    {
        self.entries.len()
    }
}

} // verus!
