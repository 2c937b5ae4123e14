//! Per-pair bot configuration and the registry that holds one per pair key.

use vstd::prelude::*;
use crate::numeric::MmNumber;
use crate::registry::Registry;

verus! {

/// At most one strategy modifier is meaningful at a time, so the modifiers
/// form a tagged union rather than independent optional fields: a validity
/// window on the price used, a bidirectional-trade check, max-volume mode,
/// or balance-percent mode. `Plain` is the unmodified strategy.
#[derive(Clone, Copy, Debug, PartialEq, Eq, Structural)]
pub enum StrategyModifier {
    Plain,
    ValidityWindow(MmNumber),
    BidirectionalTradeCheck(bool),
    MaxVolume,
    BalancePercent(MmNumber),
}

impl StrategyModifier {
    /// Any rational a modifier carries must be well formed.
    pub open spec fn wf(&self) -> bool {
        match *self {
            StrategyModifier::ValidityWindow(w) => w.wf(),
            StrategyModifier::BalancePercent(p) => p.wf(),
            _ => true,
        }
    }
}

/// Configuration of the simple market maker for one traded pair: the base
/// and relative asset identifiers, the minimum volume and spread (both
/// non-negative rationals), the confirmation and notarization requirements
/// of each side, the enable flag, and the strategy modifier.
#[derive(Debug, PartialEq)]
pub struct SimpleCoinMarketMakerCfg {
    pub base: String,
    pub rel: String,
    pub min_volume: MmNumber,
    pub spread: MmNumber,
    pub base_confs: u64,
    pub base_nota: bool,
    pub rel_confs: u64,
    pub rel_nota: bool,
    pub enable: bool,
    pub strategy: StrategyModifier,
}

impl SimpleCoinMarketMakerCfg {
    /// Spread and minimum volume are well-formed (hence non-negative)
    /// rationals, as is any rational the strategy modifier carries.
    pub open spec fn wf(&self) -> bool {
        self.min_volume.wf() && self.spread.wf() && self.strategy.wf()
    }
}

impl Clone for SimpleCoinMarketMakerCfg {
    /// A clone is equal to the original in every field.
    fn clone(&self) -> (r: Self)
        ensures
            r == *self,
    {
        SimpleCoinMarketMakerCfg {
            base: self.base.clone(),
            rel: self.rel.clone(),
            min_volume: self.min_volume,
            spread: self.spread,
            base_confs: self.base_confs,
            base_nota: self.base_nota,
            rel_confs: self.rel_confs,
            rel_nota: self.rel_nota,
            enable: self.enable,
            strategy: self.strategy,
        }
    }
}

/// Registry of bot configurations: one active configuration per pair key,
/// where a pair key identifies the base/relative asset combination the
/// configuration trades under.
pub struct ConfigRegistry {
    entries: Registry<SimpleCoinMarketMakerCfg>,
}

/// One active configuration per pair key.
pub type SimpleMakerBotRegistry = ConfigRegistry;

impl View for ConfigRegistry {
    type V = Map<Seq<char>, SimpleCoinMarketMakerCfg>;

    closed spec fn view(&self) -> Map<Seq<char>, SimpleCoinMarketMakerCfg> {
        self.entries@
    }
}

impl ConfigRegistry {
    /// Structural invariant: the underlying table is well formed and so is
    /// every registered configuration.
    pub closed spec fn wf(&self) -> bool {
        &&& self.entries.wf()
        &&& forall|k: Seq<char>| self@.contains_key(k) ==> self@[k].wf()
    }

    /// An empty registry.
    pub fn new() -> (r: Self)
        ensures
            r.wf(),
            r@ == Map::<Seq<char>, SimpleCoinMarketMakerCfg>::empty(),
    {
        ConfigRegistry { entries: Registry::new() }
    }

    /// Insert or fully replace the configuration of `pair_key`; no
    /// field-level merge ever happens.
    pub fn upsert(&mut self, pair_key: String, cfg: SimpleCoinMarketMakerCfg)
        requires
            old(self).wf(),
            cfg.wf(),
        ensures
            final(self).wf(),
            final(self)@ == old(self)@.insert(pair_key@, cfg),
    {
        let ghost key = pair_key@;
        let ghost pre = self.entries@;
        let ghost gcfg = cfg;
        self.entries.insert(pair_key, cfg);
        proof {
            assert(pre == old(self)@);
            assert(self.entries@ == pre.insert(key, gcfg));
            assert forall|k: Seq<char>| self.entries@.contains_key(k) implies self.entries@[
                k
            ].wf() by {
                if k != key {
                    assert(pre.contains_key(k));
                    assert(pre[k].wf());
                    assert(self.entries@[k] == pre[k]);
                } else {
                    assert(self.entries@[k] == gcfg);
                }
            }
        }
    }

    /// The configuration of `pair_key`, exactly when one is registered.
    pub fn get<'a>(&'a self, pair_key: &String) -> (r: Option<&'a SimpleCoinMarketMakerCfg>)
        requires
            self.wf(),
        ensures
            match r {
                Some(cfg) => self@.contains_key(pair_key@) && *cfg == self@[pair_key@]
                    && cfg.wf(),
                None => !self@.contains_key(pair_key@),
            },
    {
        self.entries.get(pair_key)
    }

    /// Drop the configuration of `pair_key`, if any.
    pub fn remove(&mut self, pair_key: &String)
        requires
            old(self).wf(),
        ensures
            final(self).wf(),
            final(self)@ == old(self)@.remove(pair_key@),
    {
        let ghost pre = self.entries@;
        self.entries.remove(pair_key);
        proof {
            assert(pre == old(self)@);
            assert forall|k: Seq<char>| self.entries@.contains_key(k) implies self.entries@[
                k
            ].wf() by {
                assert(pre.contains_key(k));
                assert(pre[k].wf());
                assert(self.entries@[k] == pre[k]);
            }
        }
    }

    /// A consistent snapshot of every registered configuration: distinct
    /// pair keys denoting exactly the registry's map, so a caller never
    /// observes a partially written entry.
    pub fn list(&self) -> (r: &Vec<(String, SimpleCoinMarketMakerCfg)>)
        requires
            self.wf(),
        ensures
            crate::registry::distinct_keys(r@),
            crate::registry::entry_map(r@) == self@,
    {
        self.entries.snapshot()
    }

    /// Number of registered pairs.
    pub fn len(&self) -> (n: usize)
        requires
            self.wf(),
        ensures
            n == self@.dom().len(),
    {
        self.entries.len()
    }
}

/// Read-your-write: immediately after a configuration is stored under a pair
/// key, a lookup of that key yields exactly the stored configuration.
pub proof fn lemma_read_your_write(
    m: Map<Seq<char>, SimpleCoinMarketMakerCfg>,
    pair_key: Seq<char>,
    cfg: SimpleCoinMarketMakerCfg,
)
    ensures
        m.insert(pair_key, cfg).contains_key(pair_key),
        m.insert(pair_key, cfg)[pair_key] == cfg,
{
}

} // verus!
