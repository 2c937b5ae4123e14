use lp_bot::{BotContext, ConfigRegistry, MmNumber, PriceCache, Provider,
             SimpleCoinMarketMakerCfg, StrategyModifier, TickerInfos};

fn cfg_with_spread(spread_numer: u64) -> SimpleCoinMarketMakerCfg {
    SimpleCoinMarketMakerCfg {
        base: "KMD".to_string(),
        rel: "BTC".to_string(),
        min_volume: MmNumber::zero(),
        spread: MmNumber::new(spread_numer, 100),
        base_confs: 3,
        base_nota: true,
        rel_confs: 2,
        rel_nota: false,
        enable: true,
        strategy: StrategyModifier::BalancePercent(MmNumber::new(50, 100)),
    }
}

fn snapshot(ticker: &str, price: &str, ts: i64) -> TickerInfos {
    TickerInfos {
        ticker: ticker.to_string(),
        last_price: price.to_string(),
        last_updated: "2020-01-01T00:00:00Z".to_string(),
        last_updated_timestamp: ts,
        volume24_h: "120000".to_string(),
        price_provider: Provider::Binance,
        volume_provider: Provider::Coingecko,
        sparkline_7_d: Some(vec![MmNumber::new(99, 100), MmNumber::new(101, 100)]),
        sparkline_provider: Provider::Coinpaprika,
        change_24_h: "0.5".to_string(),
        change_24_h_provider: Provider::Unknown,
    }
}

#[test]
fn upsert_then_get_returns_exact_value() {
    let mut reg = ConfigRegistry::new();
    let cfg = cfg_with_spread(105);
    reg.upsert("KMD_BTC".to_string(), cfg.clone());
    assert_eq!(reg.get(&"KMD_BTC".to_string()), Some(&cfg));
}

#[test]
fn upsert_replaces_whole_config() {
    let mut reg = ConfigRegistry::new();
    reg.upsert("KMD_BTC".to_string(), cfg_with_spread(105));
    reg.upsert("KMD_BTC".to_string(), cfg_with_spread(110));
    assert_eq!(reg.len(), 1);
    assert_eq!(reg.get(&"KMD_BTC".to_string()), Some(&cfg_with_spread(110)));
}

#[test]
fn get_missing_config_is_none() {
    let reg = ConfigRegistry::new();
    assert_eq!(reg.get(&"KMD_BTC".to_string()), None);
}

#[test]
fn remove_config_drops_only_that_pair() {
    let mut reg = ConfigRegistry::new();
    reg.upsert("KMD_BTC".to_string(), cfg_with_spread(105));
    reg.upsert("MORTY_RICK".to_string(), cfg_with_spread(120));
    reg.remove(&"KMD_BTC".to_string());
    assert_eq!(reg.len(), 1);
    assert!(reg.get(&"KMD_BTC".to_string()).is_none());
    assert!(reg.get(&"MORTY_RICK".to_string()).is_some());
}

#[test]
fn list_is_consistent_snapshot() {
    let mut reg = ConfigRegistry::new();
    reg.upsert("KMD_BTC".to_string(), cfg_with_spread(105));
    reg.upsert("MORTY_RICK".to_string(), cfg_with_spread(120));
    let listed = reg.list();
    assert_eq!(listed.len(), 2);
    for (key, cfg) in listed.iter() {
        assert_eq!(reg.get(key), Some(cfg));
    }
}

#[test]
fn empty_pair_key_is_a_key_like_any_other() {
    let mut reg = ConfigRegistry::new();
    reg.upsert(String::new(), cfg_with_spread(105));
    assert_eq!(reg.get(&String::new()), Some(&cfg_with_spread(105)));
}

#[test]
fn stale_publish_leaves_snapshot_unchanged() {
    let mut cache = PriceCache::new();
    let fresh = snapshot("KMD", "1.0", 100);
    cache.publish("KMD".to_string(), fresh.clone());
    cache.publish("KMD".to_string(), snapshot("KMD", "0.9", 50));
    assert_eq!(cache.get(&"KMD".to_string()), Some(&fresh));
}

#[test]
fn newer_publish_replaces_entire_snapshot() {
    let mut cache = PriceCache::new();
    cache.publish("KMD".to_string(), snapshot("KMD", "1.0", 100));
    let newer = TickerInfos {
        ticker: "KMD".to_string(),
        last_price: "1.1".to_string(),
        last_updated: "2020-01-02T00:00:00Z".to_string(),
        last_updated_timestamp: 200,
        volume24_h: "90000".to_string(),
        price_provider: Provider::Coinpaprika,
        volume_provider: Provider::Unknown,
        sparkline_7_d: None,
        sparkline_provider: Provider::Unknown,
        change_24_h: "-0.2".to_string(),
        change_24_h_provider: Provider::Binance,
    };
    cache.publish("KMD".to_string(), newer.clone());
    assert_eq!(cache.get(&"KMD".to_string()), Some(&newer));
}

#[test]
fn equal_timestamp_publish_replaces() {
    let mut cache = PriceCache::new();
    cache.publish("KMD".to_string(), snapshot("KMD", "1.0", 100));
    let same_ts = snapshot("KMD", "1.05", 100);
    cache.publish("KMD".to_string(), same_ts.clone());
    assert_eq!(cache.get(&"KMD".to_string()), Some(&same_ts));
}

#[test]
fn out_of_order_publish_keeps_first_price() {
    let mut ctx = BotContext::new();
    ctx.publish_price("KMD".to_string(), snapshot("KMD", "1.0", 100));
    ctx.publish_price("KMD".to_string(), snapshot("KMD", "0.9", 50));
    let stored = ctx.get_price(&"KMD".to_string()).unwrap();
    assert_eq!(stored.last_price, "1.0");
    assert_eq!(stored.last_updated_timestamp, 100);
}

#[test]
fn prices_of_distinct_tickers_are_independent() {
    let mut cache = PriceCache::new();
    cache.publish("KMD".to_string(), snapshot("KMD", "1.0", 100));
    cache.publish("BTC".to_string(), snapshot("BTC", "9000", 100));
    assert_eq!(cache.len(), 2);
    assert_eq!(cache.get(&"KMD".to_string()).unwrap().last_price, "1.0");
    assert_eq!(cache.get(&"BTC".to_string()).unwrap().last_price, "9000");
    let listed = cache.list();
    assert_eq!(listed.len(), 2);
}

#[test]
fn context_read_your_write_config() {
    let mut ctx = BotContext::new();
    let cfg = cfg_with_spread(105);
    ctx.upsert_config("KMD_BTC".to_string(), cfg.clone());
    assert_eq!(ctx.get_config(&"KMD_BTC".to_string()), Some(cfg));
    ctx.remove_config(&"KMD_BTC".to_string());
    assert_eq!(ctx.get_config(&"KMD_BTC".to_string()), None);
}

#[test]
fn provider_wire_tags_are_fixed_lowercase() {
    assert_eq!(Provider::Binance.tag(), "binance");
    assert_eq!(Provider::Coingecko.tag(), "coingecko");
    assert_eq!(Provider::Coinpaprika.tag(), "coinpaprika");
    assert_eq!(Provider::Unknown.tag(), "unknown");
}

#[test]
fn provider_tags_round_trip() {
    let providers = [
        Provider::Binance,
        Provider::Coingecko,
        Provider::Coinpaprika,
        Provider::Unknown,
    ];
    for p in providers.iter() {
        assert_eq!(Provider::from_tag(&p.tag().to_string()), Some(*p));
    }
}

#[test]
fn unknown_tag_is_rejected() {
    assert_eq!(Provider::from_tag(&"kraken".to_string()), None);
    assert_eq!(Provider::from_tag(&"Binance".to_string()), None);
    assert_eq!(Provider::from_tag(&String::new()), None);
}

#[test]
fn mm_number_basics() {
    let z = MmNumber::zero();
    assert!(z.is_zero());
    assert_eq!(z.denom, 1);
    let half = MmNumber::new(1, 2);
    assert!(!half.is_zero());
    assert_eq!(half.numer, 1);
    assert_eq!(half.denom, 2);
}

#[test]
fn context_lists_configs_and_prices() {
    let mut ctx = BotContext::new();
    ctx.upsert_config("KMD_BTC".to_string(), cfg_with_spread(105));
    ctx.upsert_config("MORTY_RICK".to_string(), cfg_with_spread(120));
    ctx.publish_price("KMD".to_string(), snapshot("KMD", "1.0", 100));
    assert_eq!(ctx.list_configs().len(), 2);
    let prices = ctx.list_prices();
    assert_eq!(prices.len(), 1);
    assert_eq!(prices[0].0, "KMD");
    assert_eq!(prices[0].1.last_price, "1.0");
}
