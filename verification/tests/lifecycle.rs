use lp_bot::{BotContext, BotState, BotStateMachine, InvalidTransition, MmNumber,
             SimpleCoinMarketMakerCfg, StrategyModifier};

fn sample_cfg(base: &str, rel: &str) -> SimpleCoinMarketMakerCfg {
    SimpleCoinMarketMakerCfg {
        base: base.to_string(),
        rel: rel.to_string(),
        min_volume: MmNumber::new(1, 100),
        spread: MmNumber::new(105, 100),
        base_confs: 3,
        base_nota: true,
        rel_confs: 1,
        rel_nota: false,
        enable: true,
        strategy: StrategyModifier::Plain,
    }
}

#[test]
fn fresh_machine_is_stopped() {
    let m = BotStateMachine::new();
    assert_eq!(m.status(), BotState::Stopped);
}

#[test]
fn start_from_stopped_runs() {
    let mut m = BotStateMachine::new();
    assert!(m.try_start().is_ok());
    assert_eq!(m.status(), BotState::Running);
}

#[test]
fn start_while_running_fails_already_running() {
    let mut m = BotStateMachine::new();
    m.try_start().unwrap();
    assert_eq!(m.try_start(), Err(InvalidTransition::AlreadyRunning));
    assert_eq!(m.status(), BotState::Running);
}

#[test]
fn start_while_stopping_fails_already_stopping() {
    let mut m = BotStateMachine::new();
    m.try_start().unwrap();
    m.request_stop().unwrap();
    assert_eq!(m.try_start(), Err(InvalidTransition::AlreadyStopping));
    assert_eq!(m.status(), BotState::Stopping);
}

#[test]
fn stop_while_stopped_fails_not_running() {
    let mut m = BotStateMachine::new();
    assert_eq!(m.request_stop(), Err(InvalidTransition::NotRunning));
    assert_eq!(m.status(), BotState::Stopped);
}

#[test]
fn stop_while_stopping_fails_not_running() {
    let mut m = BotStateMachine::new();
    m.try_start().unwrap();
    m.request_stop().unwrap();
    assert_eq!(m.request_stop(), Err(InvalidTransition::NotRunning));
    assert_eq!(m.status(), BotState::Stopping);
}

#[test]
fn finish_stop_outside_stopping_fails_not_stopping() {
    let mut m = BotStateMachine::new();
    assert_eq!(m.finish_stop(), Err(InvalidTransition::NotStopping));
    m.try_start().unwrap();
    assert_eq!(m.finish_stop(), Err(InvalidTransition::NotStopping));
    assert_eq!(m.status(), BotState::Running);
}

#[test]
fn full_cycle_and_restart() {
    let mut ctx = BotContext::new();
    assert_eq!(ctx.status(), BotState::Stopped);

    assert!(ctx.start("KMD_BTC".to_string(), sample_cfg("KMD", "BTC")).is_ok());
    assert_eq!(ctx.status(), BotState::Running);

    assert!(ctx.stop().is_ok());
    assert_eq!(ctx.status(), BotState::Stopping);

    assert!(ctx.finish_stop().is_ok());
    assert_eq!(ctx.status(), BotState::Stopped);

    assert!(ctx.start("KMD_BTC".to_string(), sample_cfg("KMD", "BTC")).is_ok());
    assert_eq!(ctx.status(), BotState::Running);
}

#[test]
fn failed_start_does_not_store_config() {
    let mut ctx = BotContext::new();
    ctx.start("KMD_BTC".to_string(), sample_cfg("KMD", "BTC")).unwrap();
    let err = ctx.start("MORTY_RICK".to_string(), sample_cfg("MORTY", "RICK"));
    assert_eq!(err, Err(InvalidTransition::AlreadyRunning));
    assert!(ctx.get_config(&"MORTY_RICK".to_string()).is_none());
    assert!(ctx.get_config(&"KMD_BTC".to_string()).is_some());
}

#[test]
fn context_stop_errors_mirror_state_machine() {
    let mut ctx = BotContext::new();
    assert_eq!(ctx.stop(), Err(InvalidTransition::NotRunning));
    assert_eq!(ctx.finish_stop(), Err(InvalidTransition::NotStopping));
    assert_eq!(ctx.status(), BotState::Stopped);
}
