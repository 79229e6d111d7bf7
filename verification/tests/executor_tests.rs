use sol_trade_sdk::{
    ExecuteError, GasFeeConfig, GasFeeStrategy, GasFeeStrategyConfig, PollStep, ResultCollector,
    Signature, SwqosChannelInfo, SwqosType, TaskResult, TradeType, effective_with_tip,
    find_default_config, plan_tasks,
};

fn entry(swqos_type: SwqosType, trade_type: TradeType, tip_lamports: u64) -> GasFeeStrategyConfig {
    GasFeeStrategyConfig {
        swqos_type,
        trade_type,
        fee: GasFeeConfig { cu_limit: 200_000, cu_price: 1_000, tip_lamports },
    }
}

fn strategy_for(entries: Vec<GasFeeStrategyConfig>) -> GasFeeStrategy {
    let mut s = GasFeeStrategy::new();
    for e in entries {
        s.add_config(e);
    }
    s
}

#[test]
fn empty_registry_fails_before_anything() {
    let channels: Vec<SwqosChannelInfo> = Vec::new();
    let strategy = strategy_for(vec![entry(SwqosType::Default, TradeType::Buy, 0)]);
    let r = plan_tasks(&channels, &strategy, true, true, false, true);
    assert_eq!(r.unwrap_err(), ExecuteError::EmptySwqosClients);
}

#[test]
fn tipping_disabled_needs_a_default_channel() {
    let channels = vec![SwqosChannelInfo { swqos_type: SwqosType::Jito, min_tip_lamports: 0 }];
    let strategy = strategy_for(vec![entry(SwqosType::Jito, TradeType::Sell, 1_000)]);
    let r = plan_tasks(&channels, &strategy, false, false, false, true);
    let e = r.unwrap_err();
    assert_eq!(e, ExecuteError::NoDefaultSwqos);
    assert_eq!(e.message(), "No Rpc Default Swqos configured.");
}

#[test]
fn no_matching_config_fails_with_no_available_configs() {
    let channels = vec![SwqosChannelInfo { swqos_type: SwqosType::Jito, min_tip_lamports: 0 }];
    let strategy = strategy_for(vec![entry(SwqosType::Helius, TradeType::Buy, 1_000)]);
    let r = plan_tasks(&channels, &strategy, true, true, false, true);
    assert_eq!(r.unwrap_err(), ExecuteError::NoAvailableConfigs);
}

// Scenario: two channels, tipping enabled, Buy direction, no durable nonce.
#[test]
fn two_channel_buy_without_nonce_fails_before_spawn() {
    let channels = vec![
        SwqosChannelInfo { swqos_type: SwqosType::Jito, min_tip_lamports: 0 },
        SwqosChannelInfo { swqos_type: SwqosType::Helius, min_tip_lamports: 0 },
    ];
    let strategy = strategy_for(vec![
        entry(SwqosType::Jito, TradeType::Buy, 1_000),
        entry(SwqosType::Helius, TradeType::Buy, 1_000),
    ]);
    let r = plan_tasks(&channels, &strategy, true, true, false, false);
    let e = r.unwrap_err();
    assert_eq!(e, ExecuteError::DurableNonceRequired);
    assert_eq!(e.message(), "Multiple swqos transactions require durable_nonce to be set.");
}

#[test]
fn single_task_buy_without_nonce_is_allowed() {
    let channels = vec![SwqosChannelInfo { swqos_type: SwqosType::Jito, min_tip_lamports: 0 }];
    let strategy = strategy_for(vec![entry(SwqosType::Jito, TradeType::Buy, 1_000)]);
    let tasks = plan_tasks(&channels, &strategy, true, true, false, false).unwrap();
    assert_eq!(tasks.len(), 1);
}

// Scenario: a channel whose floor is 0.0002 SOL against a 0.0001 SOL tip.
#[test]
fn tip_below_floor_is_excluded_only_under_enforcement() {
    let channels = vec![
        SwqosChannelInfo { swqos_type: SwqosType::Bloxroute, min_tip_lamports: 200_000 },
    ];
    let strategy = strategy_for(vec![entry(SwqosType::Bloxroute, TradeType::Buy, 100_000)]);

    // Enforcement requested: the configuration is filtered out.
    let r = plan_tasks(&channels, &strategy, true, true, true, true);
    assert_eq!(r.unwrap_err(), ExecuteError::NoAvailableConfigs);

    // No enforcement: the configuration survives.
    let tasks = plan_tasks(&channels, &strategy, true, true, false, true).unwrap();
    assert_eq!(tasks.len(), 1);
    assert_eq!(tasks[0].swqos_type, SwqosType::Bloxroute);
    assert_eq!(tasks[0].fee.tip_lamports, 100_000);
}

#[test]
fn tip_meeting_floor_survives_enforcement() {
    let channels = vec![
        SwqosChannelInfo { swqos_type: SwqosType::Bloxroute, min_tip_lamports: 200_000 },
    ];
    let strategy = strategy_for(vec![entry(SwqosType::Bloxroute, TradeType::Buy, 200_000)]);
    let tasks = plan_tasks(&channels, &strategy, true, true, true, true).unwrap();
    assert_eq!(tasks.len(), 1);
}

// Scenario: three channels, tipping disabled, only the default channel plans.
#[test]
fn tipping_disabled_keeps_only_the_default_channel() {
    let channels = vec![
        SwqosChannelInfo { swqos_type: SwqosType::Jito, min_tip_lamports: 1_000 },
        SwqosChannelInfo { swqos_type: SwqosType::Default, min_tip_lamports: 0 },
        SwqosChannelInfo { swqos_type: SwqosType::Helius, min_tip_lamports: 1_000 },
    ];
    let strategy = strategy_for(vec![
        entry(SwqosType::Jito, TradeType::Sell, 1_000),
        entry(SwqosType::Default, TradeType::Sell, 0),
        entry(SwqosType::Helius, TradeType::Sell, 1_000),
    ]);
    let tasks = plan_tasks(&channels, &strategy, false, false, false, false).unwrap();
    assert_eq!(tasks.len(), 1);
    assert_eq!(tasks[0].swqos_type, SwqosType::Default);
    assert_eq!(tasks[0].channel_index, 1);

    // The one spawned task succeeds: the result is success with its one
    // signature, no error, and the default channel's timing.
    let mut collector = ResultCollector::new(tasks.len());
    collector.submit(TaskResult {
        success: true,
        signature: Signature { bytes: vec![5u8; 64] },
        error: None,
        swqos_type: SwqosType::Default,
        landed_on_chain: true,
        submit_done_us: 777,
    });
    match collector.wait_for_success_step() {
        PollStep::Decided(o) => {
            assert!(o.success);
            assert_eq!(o.signatures, vec![Signature { bytes: vec![5u8; 64] }]);
            assert!(o.error.is_none());
            assert_eq!(o.timings, vec![(SwqosType::Default, 777)]);
        }
        other => panic!("expected a decision, got {:?}", other),
    }
}

#[test]
fn cross_product_keeps_channel_order_and_strategy_order() {
    let channels = vec![
        SwqosChannelInfo { swqos_type: SwqosType::Jito, min_tip_lamports: 0 },
        SwqosChannelInfo { swqos_type: SwqosType::Helius, min_tip_lamports: 0 },
    ];
    let strategy = strategy_for(vec![
        entry(SwqosType::Jito, TradeType::Buy, 1),
        entry(SwqosType::Helius, TradeType::Buy, 2),
        entry(SwqosType::Jito, TradeType::Buy, 3),
        entry(SwqosType::Jito, TradeType::Sell, 4),
    ]);
    let tasks = plan_tasks(&channels, &strategy, true, true, false, true).unwrap();
    // Channel 0 (Jito) contributes its two buy entries in order, then
    // channel 1 (Helius) contributes its one; the sell entry is dropped.
    assert_eq!(tasks.len(), 3);
    assert_eq!(tasks[0].channel_index, 0);
    assert_eq!(tasks[0].fee.tip_lamports, 1);
    assert_eq!(tasks[1].channel_index, 0);
    assert_eq!(tasks[1].fee.tip_lamports, 3);
    assert_eq!(tasks[2].channel_index, 1);
    assert_eq!(tasks[2].fee.tip_lamports, 2);
}

#[test]
fn get_strategies_filters_by_direction() {
    let strategy = strategy_for(vec![
        entry(SwqosType::Jito, TradeType::Buy, 1),
        entry(SwqosType::Jito, TradeType::Sell, 2),
        entry(SwqosType::Default, TradeType::Buy, 3),
    ]);
    let buys = strategy.get_strategies(TradeType::Buy);
    assert_eq!(buys.len(), 2);
    assert_eq!(buys[0].fee.tip_lamports, 1);
    assert_eq!(buys[1].fee.tip_lamports, 3);
    let sells = strategy.get_strategies(TradeType::Sell);
    assert_eq!(sells.len(), 1);
    assert_eq!(sells[0].fee.tip_lamports, 2);
}

#[test]
fn trade_type_buy_sides() {
    assert!(TradeType::Buy.is_buy());
    assert!(TradeType::CreateAndBuy.is_buy());
    assert!(!TradeType::Sell.is_buy());
    assert!(effective_with_tip(true, false));
    assert!(effective_with_tip(false, true));
    assert!(!effective_with_tip(false, false));
}

#[test]
fn find_default_config_returns_first_default_entry() {
    let entries = vec![
        entry(SwqosType::Jito, TradeType::Buy, 1),
        entry(SwqosType::Default, TradeType::Buy, 2),
        entry(SwqosType::Default, TradeType::Buy, 3),
    ];
    let found = find_default_config(&entries).unwrap();
    assert_eq!(found.fee.tip_lamports, 2);
    let none = find_default_config(&vec![entry(SwqosType::Jito, TradeType::Buy, 1)]);
    assert!(none.is_none());
}
