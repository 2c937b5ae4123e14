//! The bot context: one run-state machine, one configuration registry and
//! one price cache, aggregated behind a single handle.
//!
//! A context is created once per outer application context and handed to
//! every collaborator; the exclusive-access guards that let concurrent tasks
//! share one context live outside the verified core, which states what each
//! operation does to the three resources within a critical section.

use vstd::prelude::*;
use crate::config::{ConfigRegistry, SimpleCoinMarketMakerCfg};
use crate::state::{legal_step, BotState, BotStateMachine, StartError, StopError};
use crate::ticker::{publish_effect, PriceCache, TickerInfos};

verus! {

/// Aggregates the bot's three guarded resources. Each operation touches
/// exactly the resource it names and leaves the other two unchanged.
pub struct BotContext {
    state: BotStateMachine,
    config_registry: ConfigRegistry,
    price_cache: PriceCache,
}

impl BotContext {
    /// The current run state.
    pub closed spec fn spec_state(&self) -> BotState {
        self.state@
    }

    /// The registered configurations, by pair key.
    pub closed spec fn configs(&self) -> Map<Seq<char>, SimpleCoinMarketMakerCfg> {
        self.config_registry@
    }

    /// The cached price snapshots, by ticker.
    pub closed spec fn prices(&self) -> Map<Seq<char>, TickerInfos> {
        self.price_cache@
    }

    /// Structural invariants of the two tables.
    pub closed spec fn wf(&self) -> bool {
        self.config_registry.wf() && self.price_cache.wf()
    }

    /// A fresh context: state `Stopped`, no configurations, no prices. This
    /// is the factory the outer application context runs exactly once per
    /// context; every later access receives the same instance.
    pub fn new() -> (r: Self)
        ensures
            r.wf(),
            r.spec_state() == BotState::Stopped,
            r.configs() == Map::<Seq<char>, SimpleCoinMarketMakerCfg>::empty(),
            r.prices() == Map::<Seq<char>, TickerInfos>::empty(),
    {
        BotContext {
            state: BotStateMachine::new(),
            config_registry: ConfigRegistry::new(),
            price_cache: PriceCache::new(),
        }
    }

    /// Non-mutating read of the run state.
    pub fn status(&self) -> (s: BotState)
        ensures
            s == self.spec_state(),
    {
        self.state.status()
    }

    /// Start the bot for `pair_key`: succeeds only from `Stopped`, moving to
    /// `Running` and registering `cfg` under `pair_key`. From `Running` it
    /// fails with `AlreadyRunning`, from `Stopping` with `AlreadyStopping`,
    /// and on failure nothing changes — the configuration is not stored.
    pub fn start(&mut self, pair_key: String, cfg: SimpleCoinMarketMakerCfg) -> (r: Result<
        (),
        StartError,
    >)
        requires
            old(self).wf(),
            cfg.wf(),
        ensures
            final(self).wf(),
            old(self).spec_state() == BotState::Stopped ==> r is Ok && final(self).spec_state()
                == BotState::Running && final(self).configs() == old(self).configs().insert(
                pair_key@,
                cfg,
            ),
            old(self).spec_state() != BotState::Stopped ==> r is Err && final(self).spec_state()
                == old(self).spec_state() && final(self).configs() == old(self).configs(),
            old(self).spec_state() == BotState::Running ==> r == Err::<(), StartError>(
                crate::state::InvalidTransition::AlreadyRunning,
            ),
            old(self).spec_state() == BotState::Stopping ==> r == Err::<(), StartError>(
                crate::state::InvalidTransition::AlreadyStopping,
            ),
            final(self).prices() == old(self).prices(),
            legal_step(old(self).spec_state(), final(self).spec_state()),
    {
        match self.state.try_start() {
            Ok(()) => {
                self.config_registry.upsert(pair_key, cfg);
                Ok(())
            },
            Err(e) => Err(e),
        }
    }

    /// Request a stop: succeeds only from `Running`, moving to the transient
    /// drain state `Stopping`; fails with `NotRunning` otherwise. Only the
    /// run state changes, and only on success.
    pub fn stop(&mut self) -> (r: Result<(), StopError>)
        requires
            old(self).wf(),
        ensures
            final(self).wf(),
            old(self).spec_state() == BotState::Running ==> r is Ok && final(self).spec_state()
                == BotState::Stopping,
            old(self).spec_state() != BotState::Running ==> r == Err::<(), StopError>(
                crate::state::InvalidTransition::NotRunning,
            ) && final(self).spec_state() == old(self).spec_state(),
            final(self).configs() == old(self).configs(),
            final(self).prices() == old(self).prices(),
            legal_step(old(self).spec_state(), final(self).spec_state()),
    {
        self.state.request_stop()
    }

    /// Acknowledge that the external draining task finished: succeeds only
    /// from `Stopping`, moving back to `Stopped`; fails with `NotStopping`
    /// otherwise. Only the run state changes, and only on success.
    pub fn finish_stop(&mut self) -> (r: Result<(), StopError>)
        requires
            old(self).wf(),
        ensures
            final(self).wf(),
            old(self).spec_state() == BotState::Stopping ==> r is Ok && final(self).spec_state()
                == BotState::Stopped,
            old(self).spec_state() != BotState::Stopping ==> r == Err::<(), StopError>(
                crate::state::InvalidTransition::NotStopping,
            ) && final(self).spec_state() == old(self).spec_state(),
            final(self).configs() == old(self).configs(),
            final(self).prices() == old(self).prices(),
            legal_step(old(self).spec_state(), final(self).spec_state()),
    {
        self.state.finish_stop()
    }

    /// Insert or fully replace the configuration of `pair_key`.
    pub fn upsert_config(&mut self, pair_key: String, cfg: SimpleCoinMarketMakerCfg)
        requires
            old(self).wf(),
            cfg.wf(),
        ensures
            final(self).wf(),
            final(self).configs() == old(self).configs().insert(pair_key@, cfg),
            final(self).spec_state() == old(self).spec_state(),
            final(self).prices() == old(self).prices(),
    {
        self.config_registry.upsert(pair_key, cfg);
    }

    /// The configuration of `pair_key`, cloned, exactly when one is
    /// registered.
    pub fn get_config(&self, pair_key: &String) -> (r: Option<SimpleCoinMarketMakerCfg>)
        requires
            self.wf(),
        ensures
            match r {
                Some(cfg) => self.configs().contains_key(pair_key@) && cfg
                    == self.configs()[pair_key@] && cfg.wf(),
                None => !self.configs().contains_key(pair_key@),
            },
    {
        match self.config_registry.get(pair_key) {
            Some(cfg) => Some(cfg.clone()),
            None => None,
        }
    }

    /// Drop the configuration of `pair_key`, if any.
    pub fn remove_config(&mut self, pair_key: &String)
        requires
            old(self).wf(),
        ensures
            final(self).wf(),
            final(self).configs() == old(self).configs().remove(pair_key@),
            final(self).spec_state() == old(self).spec_state(),
            final(self).prices() == old(self).prices(),
    {
        self.config_registry.remove(pair_key);
    }

    /// A consistent snapshot of every registered configuration.
    pub fn list_configs(&self) -> (r: &Vec<(String, SimpleCoinMarketMakerCfg)>)
        requires
            self.wf(),
        ensures
            crate::registry::distinct_keys(r@),
            crate::registry::entry_map(r@) == self.configs(),
    {
        self.config_registry.list()
    }

    /// Publish a price snapshot: stored under `ticker` unless the cache
    /// already holds a strictly newer snapshot for it, in which case the
    /// write is silently dropped.
    pub fn publish_price(&mut self, ticker: String, snapshot: TickerInfos)
        requires
            old(self).wf(),
            snapshot.wf(),
        ensures
            final(self).wf(),
            final(self).prices() == publish_effect(old(self).prices(), ticker@, snapshot),
            final(self).spec_state() == old(self).spec_state(),
            final(self).configs() == old(self).configs(),
    {
        self.price_cache.publish(ticker, snapshot);
    }

    /// The cached snapshot of `ticker`, exactly when one is cached; a reader
    /// never observes a partially written snapshot.
    pub fn get_price<'a>(&'a self, ticker: &String) -> (r: Option<&'a TickerInfos>)
        requires
            self.wf(),
        ensures
            match r {
                Some(v) => self.prices().contains_key(ticker@) && *v == self.prices()[ticker@]
                    && v.wf(),
                None => !self.prices().contains_key(ticker@),
            },
    {
        self.price_cache.get(ticker)
    }

    /// A consistent snapshot of every cached price entry.
    pub fn list_prices(&self) -> (r: &Vec<(String, TickerInfos)>)
        requires
            self.wf(),
        ensures
            crate::registry::distinct_keys(r@),
            crate::registry::entry_map(r@) == self.prices(),
    {
        self.price_cache.list()
    }
}

} // verus!
