//! Bonding-curve trade quotes.
//!
//! Constant-product quotes for the bonding-curve protocol: how many tokens
//! a SOL amount buys, and how much SOL a token amount sells for, each net
//! of the protocol fee and, when the coin has a creator, the creator fee.

use vstd::prelude::*;
use crate::instructions::Pubkey;

verus! {

/// Protocol fee in basis points.
pub const FEE_BASIS_POINTS: u64 = 95;

/// Creator fee in basis points, charged when the coin has a creator.
pub const CREATOR_FEE: u64 = 30;

/// Virtual token reserves of a freshly created curve.
pub const INITIAL_VIRTUAL_TOKEN_RESERVES: u64 = 1_073_000_000_000_000;

/// Virtual SOL reserves of a freshly created curve.
pub const INITIAL_VIRTUAL_SOL_RESERVES: u64 = 30_000_000_000;

/// Real token reserves of a freshly created curve.
pub const INITIAL_REAL_TOKEN_RESERVES: u64 = 793_100_000_000_000;

/// Total fee in basis points: the protocol fee, plus the creator fee when
/// the coin has a creator.
pub open spec fn spec_total_fee_basis_points(creator_is_default: bool) -> u128 {
    if creator_is_default {
        FEE_BASIS_POINTS as u128
    } else {
        (FEE_BASIS_POINTS + CREATOR_FEE) as u128
    }
}

/// The fee on `amount` at `fee_basis_points`, rounded down.
pub open spec fn spec_compute_fee(amount: u128, fee_basis_points: u128) -> u128 {
    (((amount as int) * (fee_basis_points as int)) / 10000) as u128
}

/// Computes the fee on `amount` at `fee_basis_points`, rounded down.
pub fn compute_fee(amount: u128, fee_basis_points: u128) -> (r: u128)
    requires
        amount * fee_basis_points <= u128::MAX,
    ensures
        r == spec_compute_fee(amount, fee_basis_points),
{
    amount * fee_basis_points / 10000
}

/// The token amount a SOL amount buys: the input net of fees runs through
/// the constant-product formula and is capped by the real reserves.
pub open spec fn spec_buy_token_amount(
    virtual_token_reserves: u128,
    virtual_sol_reserves: u128,
    real_token_reserves: u128,
    creator_is_default: bool,
    amount: u64,
) -> u64 {
    if amount == 0 || virtual_token_reserves == 0 {
        0u64
    } else {
        let bps = spec_total_fee_basis_points(creator_is_default) as int;
        let input = (amount as int) * 10000 / (bps + 10000);
        let tokens = input * (virtual_token_reserves as int) / (virtual_sol_reserves as int
            + input);
        (if tokens <= real_token_reserves as int {
            tokens
        } else {
            real_token_reserves as int
        }) as u64
    }
}

/// Calculates the amount of tokens a given SOL amount purchases on the
/// curve. The reserve bounds are machine limits: on-chain reserves are
/// 64-bit, and the arithmetic stays inside 128 bits exactly because of
/// that.
pub fn get_buy_token_amount_from_sol_amount(
    virtual_token_reserves: u128,
    virtual_sol_reserves: u128,
    real_token_reserves: u128,
    creator: Pubkey,
    amount: u64,
) -> (r: u64)
    requires
        virtual_token_reserves <= u64::MAX,
        virtual_sol_reserves <= u64::MAX,
        virtual_sol_reserves > 0,
    ensures
        r == spec_buy_token_amount(
            virtual_token_reserves,
            virtual_sol_reserves,
            real_token_reserves,
            creator@ == Pubkey::spec_default(),
            amount,
        ),
{
    if amount == 0 {
        return 0;
    }
    if virtual_token_reserves == 0 {
        return 0;
    }
    let creator_is_default = creator.is_default();
    let total_fee_basis_points = if creator_is_default {
        FEE_BASIS_POINTS
    } else {
        FEE_BASIS_POINTS + CREATOR_FEE
    };
    let amount_128 = amount as u128;
    let total_fee_basis_points_128 = total_fee_basis_points as u128;
    assert(amount_128 * 10000 <= u128::MAX) by (nonlinear_arith)
        requires
            amount_128 <= u64::MAX,
    ;
    let input_amount = amount_128 * 10000 / (total_fee_basis_points_128 + 10000);
    assert(input_amount <= amount_128) by (nonlinear_arith)
        requires
            input_amount == (amount_128 as int) * 10000 / ((total_fee_basis_points_128 as int)
                + 10000),
            total_fee_basis_points_128 >= 0,
            amount_128 >= 0,
    ;
    let denominator = virtual_sol_reserves + input_amount;
    assert(input_amount * virtual_token_reserves <= u128::MAX) by (nonlinear_arith)
        requires
            input_amount <= u64::MAX,
            virtual_token_reserves <= u64::MAX,
    ;
    let mut tokens_received = input_amount * virtual_token_reserves / denominator;
    assert(tokens_received <= virtual_token_reserves) by (nonlinear_arith)
        requires
            tokens_received == (input_amount as int) * (virtual_token_reserves as int) / (
                denominator as int),
            denominator >= input_amount,
            denominator > 0,
            input_amount >= 0,
            virtual_token_reserves >= 0,
    ;
    if tokens_received > real_token_reserves {
        tokens_received = real_token_reserves;
    }
    tokens_received as u64
}

/// The SOL amount a token sale yields: the constant-product quote, net of
/// the fee.
pub open spec fn spec_sell_sol_amount(
    virtual_token_reserves: u128,
    virtual_sol_reserves: u128,
    creator_is_default: bool,
    amount: u64,
) -> u64 {
    if amount == 0 || virtual_token_reserves == 0 {
        0u64
    } else {
        let sol_cost = (amount as int) * (virtual_sol_reserves as int) / (virtual_token_reserves
            as int + amount as int);
        let fee = spec_compute_fee(
            sol_cost as u128,
            spec_total_fee_basis_points(creator_is_default),
        ) as int;
        (if fee <= sol_cost {
            sol_cost - fee
        } else {
            0
        }) as u64
    }
}

/// Calculates the amount of SOL received for selling a given token amount,
/// with the transaction fee deducted. The reserve bounds are machine
/// limits, as for the buy quote.
pub fn get_sell_sol_amount_from_token_amount(
    virtual_token_reserves: u128,
    virtual_sol_reserves: u128,
    creator: Pubkey,
    amount: u64,
) -> (r: u64)
    requires
        virtual_token_reserves <= u64::MAX,
        virtual_sol_reserves <= u64::MAX,
    ensures
        r == spec_sell_sol_amount(
            virtual_token_reserves,
            virtual_sol_reserves,
            creator@ == Pubkey::spec_default(),
            amount,
        ),
{
    if amount == 0 {
        return 0;
    }
    if virtual_token_reserves == 0 {
        return 0;
    }
    let creator_is_default = creator.is_default();
    let total_fee_basis_points = if creator_is_default {
        FEE_BASIS_POINTS
    } else {
        FEE_BASIS_POINTS + CREATOR_FEE
    };
    let amount_128 = amount as u128;
    assert(amount_128 * virtual_sol_reserves <= u128::MAX) by (nonlinear_arith)
        requires
            amount_128 <= u64::MAX,
            virtual_sol_reserves <= u64::MAX,
    ;
    let numerator = amount_128 * virtual_sol_reserves;
    let denominator = virtual_token_reserves + amount_128;
    let sol_cost = numerator / denominator;
    assert(sol_cost <= virtual_sol_reserves) by (nonlinear_arith)
        requires
            sol_cost == (numerator as int) / (denominator as int),
            numerator == (amount_128 as int) * (virtual_sol_reserves as int),
            denominator >= amount_128,
            denominator > 0,
            amount_128 >= 0,
            virtual_sol_reserves >= 0,
    ;
    assert(sol_cost * (total_fee_basis_points as u128) <= u128::MAX) by (nonlinear_arith)
        requires
            sol_cost <= u64::MAX,
            total_fee_basis_points <= 200,
    ;
    let fee = compute_fee(sol_cost, total_fee_basis_points as u128);
    let result = if fee <= sol_cost {
        sol_cost - fee
    } else {
        0
    };
    result as u64
}

} // verus!
