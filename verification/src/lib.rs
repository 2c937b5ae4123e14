//! Context and lifecycle manager for a background simple-market-maker
//! trading bot: the bot's run state, its per-pair configuration, and a
//! cache of externally sourced price snapshots, with verified contracts
//! for every transition and update.

pub mod config;
pub mod context;
pub mod numeric;
pub mod provider;
pub mod registry;
pub mod state;
pub mod ticker;

pub use config::{ConfigRegistry, SimpleCoinMarketMakerCfg, SimpleMakerBotRegistry, StrategyModifier};
pub use context::BotContext;
pub use numeric::MmNumber;
pub use provider::Provider;
pub use state::{BotState, BotStateMachine, InvalidTransition, StartError, StopError};
pub use ticker::{PriceCache, TickerInfos, TickerInfosRegistry};
