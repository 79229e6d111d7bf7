use sol_trade_sdk::calc::{
    INITIAL_REAL_TOKEN_RESERVES, INITIAL_VIRTUAL_SOL_RESERVES, INITIAL_VIRTUAL_TOKEN_RESERVES,
    compute_fee, get_buy_token_amount_from_sol_amount, get_sell_sol_amount_from_token_amount,
};
use sol_trade_sdk::instructions::Pubkey;

#[test]
fn buy_amount_uses_curve_result_without_hardcoded_floor() {
    let creator = Pubkey::default();
    let amount_lamports = 20_000_000; // 0.02 SOL
    let result = get_buy_token_amount_from_sol_amount(
        INITIAL_VIRTUAL_TOKEN_RESERVES as u128,
        INITIAL_VIRTUAL_SOL_RESERVES as u128,
        INITIAL_REAL_TOKEN_RESERVES as u128,
        creator,
        amount_lamports,
    );

    // The curve output for small buys stays in a realistic range and never
    // exceeds the real reserves.
    assert!(result > 0);
    assert!(result <= INITIAL_REAL_TOKEN_RESERVES);
    assert!(result < 1_000_000_000_000_000);
}

#[test]
fn buy_amount_is_monotonic_by_input_amount() {
    let creator = Pubkey::default();
    let small = get_buy_token_amount_from_sol_amount(
        INITIAL_VIRTUAL_TOKEN_RESERVES as u128,
        INITIAL_VIRTUAL_SOL_RESERVES as u128,
        INITIAL_REAL_TOKEN_RESERVES as u128,
        creator,
        10_000_000, // 0.01 SOL
    );
    let large = get_buy_token_amount_from_sol_amount(
        INITIAL_VIRTUAL_TOKEN_RESERVES as u128,
        INITIAL_VIRTUAL_SOL_RESERVES as u128,
        INITIAL_REAL_TOKEN_RESERVES as u128,
        creator,
        100_000_000, // 0.1 SOL
    );

    assert!(large >= small);
}

#[test]
fn buy_amount_follows_the_constant_product_formula() {
    // With the default creator the fee is 95 basis points:
    // input = 1000 * 10000 / 10095 = 990, tokens = 990 * 1000 / 1990 = 497.
    let r = get_buy_token_amount_from_sol_amount(1_000, 1_000, u64::MAX as u128, Pubkey::default(), 1_000);
    assert_eq!(r, 497);
}

#[test]
fn buy_amount_is_zero_for_zero_input_or_drained_curve() {
    let creator = Pubkey::default();
    assert_eq!(get_buy_token_amount_from_sol_amount(1_000, 1_000, 1_000, creator, 0), 0);
    assert_eq!(get_buy_token_amount_from_sol_amount(0, 1_000, 1_000, creator, 5), 0);
}

#[test]
fn buy_amount_is_capped_by_real_reserves() {
    let r = get_buy_token_amount_from_sol_amount(1_000_000, 1_000, 10, Pubkey::default(), 1_000_000);
    assert_eq!(r, 10);
}

#[test]
fn sell_amount_deducts_the_fee() {
    // sol_cost = 1000 * 1000 / 2000 = 500; fee = 500 * 95 / 10000 = 4.
    let r = get_sell_sol_amount_from_token_amount(1_000, 1_000, Pubkey::default(), 1_000);
    assert_eq!(r, 496);
}

#[test]
fn sell_amount_charges_the_creator_fee_for_nondefault_creators() {
    let creator = Pubkey::new_from_array([9u8; 32]);
    // sol_cost = 500; fee = 500 * 125 / 10000 = 6.
    let r = get_sell_sol_amount_from_token_amount(1_000, 1_000, creator, 1_000);
    assert_eq!(r, 494);
}

#[test]
fn sell_amount_is_zero_for_zero_input_or_drained_curve() {
    let creator = Pubkey::default();
    assert_eq!(get_sell_sol_amount_from_token_amount(1_000, 1_000, creator, 0), 0);
    assert_eq!(get_sell_sol_amount_from_token_amount(0, 1_000, creator, 7), 0);
}

#[test]
fn fee_computation_rounds_down() {
    assert_eq!(compute_fee(10_000, 95), 95);
    assert_eq!(compute_fee(9_999, 95), 94);
    assert_eq!(compute_fee(0, 95), 0);
}
