use anchor_lang::prelude::Pubkey;
use pump::errors::CustomError;
use pump::math::{apply_bps, constant_product_out, integer_sqrt};
use pump::state::{CurveConfiguration, LiquidityPool, LiquidityProvider, UserPosition};
use pump::swap::{apply_paperhand_tax, swap};
use pump::update_config::update_configuration;

fn key(b: u8) -> Pubkey {
    Pubkey::new_from_array([b; 32])
}

fn pool_with(reserve_one: u64, reserve_two: u64) -> LiquidityPool {
    let mut pool = LiquidityPool::new(key(1), 254, 0);
    pool.reserve_one = reserve_one;
    pool.reserve_two = reserve_two;
    pool
}

fn config(fees: u16, tax: u16) -> CurveConfiguration {
    CurveConfiguration::new(fees, key(7), tax, key(9))
}

#[test]
fn buy_example_prices_and_records_cost() {
    let mut pool = pool_with(1_000_000, 1_000_000_000);
    let cfg = config(100, 5000);
    let mut pos = UserPosition::new(key(1), key(2), 0);
    let out = swap(&mut pool, &cfg, &mut pos, 10_000_000, 2, 0, 77).unwrap();
    assert_eq!(out.output_amount, 9803);
    assert_eq!(out.tax_amount, 0);
    assert_eq!(pool.reserve_one, 990_197);
    assert_eq!(pool.reserve_two, 1_010_000_000);
    assert_eq!(pos.total_tokens, 9803);
    assert_eq!(pos.total_sol, 10_000_000);
    assert_eq!(out.trade.side, "buy");
    assert_eq!(out.trade.token_amount, 9803);
    assert_eq!(out.trade.sol_amount, 10_000_000);
    assert_eq!(out.trade.timestamp, 77);
    assert_eq!(out.trade.user, key(2));
    assert!(out.tax_applied.is_none());
    assert_eq!(out.position_updated.total_tokens, 9803);
    assert_eq!(out.position_updated.total_sol, 10_000_000);
}

#[test]
fn buys_only_accumulate_tokens_and_cost() {
    let mut pool = pool_with(1_000_000, 1_000_000_000);
    let cfg = config(100, 5000);
    let mut pos = UserPosition::new(key(1), key(2), 0);
    let first = swap(&mut pool, &cfg, &mut pos, 10_000_000, 2, 0, 0).unwrap();
    let second = swap(&mut pool, &cfg, &mut pos, 5_000_000, 0, 0, 0).unwrap();
    assert_eq!(second.output_amount, 4830);
    assert_eq!(pos.total_tokens, first.output_amount + second.output_amount);
    assert_eq!(pos.total_sol, 15_000_000);
}

#[test]
fn sale_at_loss_pays_tax() {
    let mut pool = pool_with(1_000_000, 1_000_000_000);
    let cfg = config(100, 5000);
    let mut pos = UserPosition::new(key(1), key(2), 0);
    pos.total_tokens = 1000;
    pos.total_sol = 10_000_000;
    let out = swap(&mut pool, &cfg, &mut pos, 1000, 1, 0, 5).unwrap();
    assert_eq!(out.tax_amount, 494_510);
    assert_eq!(out.output_amount, 494_511);
    let tax = out.tax_applied.unwrap();
    assert_eq!(tax.sol_out_before_tax, 989_021);
    assert_eq!(tax.cost_basis_for_sale, 10_000_000);
    assert_eq!(tax.tax, 494_510);
    assert_eq!(tax.sol_to_user, 494_511);
    assert_eq!(out.trade.side, "sell");
    assert_eq!(out.trade.sol_amount, 494_511);
    assert_eq!(pool.reserve_one, 1_001_000);
    assert_eq!(pool.reserve_two, 1_000_000_000 - 989_021);
    assert_eq!(pos.total_tokens, 0);
    assert_eq!(pos.total_sol, 0);
}

#[test]
fn sale_at_gain_pays_no_tax() {
    let mut pool = pool_with(1_000_000, 1_000_000_000);
    let cfg = config(100, 5000);
    let mut pos = UserPosition::new(key(1), key(2), 0);
    pos.total_tokens = 2000;
    pos.total_sol = 100;
    let out = swap(&mut pool, &cfg, &mut pos, 1000, 1, 0, 0).unwrap();
    assert_eq!(out.tax_amount, 0);
    assert_eq!(out.output_amount, 989_021);
    assert!(out.tax_applied.is_none());
    assert_eq!(pos.total_tokens, 1000);
    assert_eq!(pos.total_sol, 50);
}

#[test]
fn zero_tax_rate_never_taxes() {
    let mut pool = pool_with(1_000_000, 1_000_000_000);
    let cfg = config(100, 0);
    let mut pos = UserPosition::new(key(1), key(2), 0);
    pos.total_tokens = 1000;
    pos.total_sol = 10_000_000;
    let out = swap(&mut pool, &cfg, &mut pos, 1000, 1, 0, 0).unwrap();
    assert_eq!(out.tax_amount, 0);
    assert_eq!(out.output_amount, 989_021);
    assert!(out.tax_applied.is_some());
}

#[test]
fn tax_formula_on_values() {
    assert_eq!(apply_paperhand_tax(1000, 2000, 5000), (500, 500));
    assert_eq!(apply_paperhand_tax(999, 2000, 3333), (332, 667));
    assert_eq!(apply_paperhand_tax(2000, 2000, 5000), (0, 2000));
    assert_eq!(apply_paperhand_tax(1000, 2000, 0), (0, 1000));
}

#[test]
fn fee_keeps_product_from_falling() {
    let mut pool = pool_with(1_000_000, 1_000_000_000);
    let cfg = config(100, 5000);
    let mut pos = UserPosition::new(key(1), key(2), 0);
    let before = pool.reserve_one as u128 * pool.reserve_two as u128;
    swap(&mut pool, &cfg, &mut pos, 10_000_000, 2, 0, 0).unwrap();
    let middle = pool.reserve_one as u128 * pool.reserve_two as u128;
    assert!(middle >= before);
    swap(&mut pool, &cfg, &mut pos, 5000, 1, 0, 0).unwrap();
    let after = pool.reserve_one as u128 * pool.reserve_two as u128;
    assert!(after >= middle);
}

#[test]
fn swap_rejects_zero_amount() {
    let mut pool = pool_with(1_000_000, 1_000_000_000);
    let before = pool;
    let mut pos = UserPosition::new(key(1), key(2), 0);
    let r = swap(&mut pool, &config(100, 5000), &mut pos, 0, 2, 0, 0);
    assert_eq!(r, Err(CustomError::InvalidAmount));
    assert_eq!(pool, before);
}

#[test]
fn swap_rejects_slippage() {
    let mut pool = pool_with(1_000_000, 1_000_000_000);
    let before = pool;
    let mut pos = UserPosition::new(key(1), key(2), 0);
    let r = swap(&mut pool, &config(100, 5000), &mut pos, 10_000_000, 2, 9804, 0);
    assert_eq!(r, Err(CustomError::SlippageExceeded));
    assert_eq!(pool, before);
    assert_eq!(pos.total_tokens, 0);
}

#[test]
fn swap_rejects_sale_beyond_position() {
    let mut pool = pool_with(1_000_000, 1_000_000_000);
    let before = pool;
    let mut pos = UserPosition::new(key(1), key(2), 0);
    pos.total_tokens = 10;
    pos.total_sol = 10;
    let r = swap(&mut pool, &config(100, 5000), &mut pos, 11, 1, 0, 0);
    assert_eq!(r, Err(CustomError::InsufficientPosition));
    assert_eq!(pool, before);
    assert_eq!(pos.total_tokens, 10);
}

#[test]
fn swap_rejects_unpriceable_trade() {
    let mut pool = pool_with(0, 0);
    let mut pos = UserPosition::new(key(1), key(2), 0);
    let r = swap(&mut pool, &config(100, 5000), &mut pos, 1, 2, 0, 0);
    assert_eq!(r, Err(CustomError::MathOverflow));
}

#[test]
fn swap_rejects_reserve_overflow() {
    let mut pool = pool_with(1_000_000, u64::MAX - 5);
    let before = pool;
    let mut pos = UserPosition::new(key(1), key(2), 0);
    let r = swap(&mut pool, &config(100, 5000), &mut pos, 10, 2, 0, 0);
    assert_eq!(r, Err(CustomError::OverflowOrUnderflowOccurred));
    assert_eq!(pool, before);
}

#[test]
fn swap_rejects_position_overflow() {
    let mut pool = pool_with(1_000_000, 1_000_000_000);
    let before = pool;
    let mut pos = UserPosition::new(key(1), key(2), 0);
    pos.total_tokens = 1;
    pos.total_sol = u64::MAX - 5;
    let r = swap(&mut pool, &config(100, 5000), &mut pos, 10_000_000, 2, 0, 0);
    assert_eq!(r, Err(CustomError::MathOverflow));
    assert_eq!(pool, before);
    assert_eq!(pos.total_sol, u64::MAX - 5);
}

#[test]
fn pool_swap_updates_reserves() {
    let mut pool = pool_with(1_000_000, 1_000_000_000);
    let out = pool.swap(&config(100, 5000), 10_000_000, 2).unwrap();
    assert_eq!(out, 9803);
    assert_eq!(pool.reserve_one, 990_197);
    assert_eq!(pool.reserve_two, 1_010_000_000);
    assert_eq!(pool.swap(&config(100, 5000), 0, 1), Err(CustomError::InvalidAmount));
}

#[test]
fn quote_matches_curve() {
    let pool = pool_with(1_000_000, 1_000_000_000);
    assert_eq!(pool.quote_swap(100, 1000, 1), Ok(989_021));
    assert_eq!(pool.quote_swap(100, 10_000_000, 2), Ok(9803));
    assert_eq!(constant_product_out(1_000_000_000, 1_000_000, 9_900_000), Some(9803));
    assert_eq!(constant_product_out(0, 5, 0), None);
}

#[test]
fn first_deposit_mints_square_root() {
    let mut pool = LiquidityPool::new(key(1), 1, 0);
    let mut lp = LiquidityProvider { shares: 0 };
    assert_eq!(pool.add_liquidity(&mut lp, 4, 9), Ok(6));
    assert_eq!(lp.shares, 6);
    assert_eq!(pool.total_supply, 6);
    assert_eq!(pool.reserve_one, 4);
    assert_eq!(pool.reserve_two, 9);
}

#[test]
fn later_deposit_mints_scarcer_side() {
    let mut pool = LiquidityPool::new(key(1), 1, 0);
    let mut lp = LiquidityProvider { shares: 0 };
    pool.add_liquidity(&mut lp, 4, 9).unwrap();
    assert_eq!(pool.add_liquidity(&mut lp, 2, 9), Ok(3));
    assert_eq!(lp.shares, 9);
    assert_eq!(pool.total_supply, 9);
    assert_eq!(pool.reserve_one, 6);
    assert_eq!(pool.reserve_two, 18);
}

#[test]
fn deposit_minting_nothing_fails() {
    let mut pool = LiquidityPool::new(key(1), 1, 0);
    let mut lp = LiquidityProvider { shares: 0 };
    assert_eq!(pool.add_liquidity(&mut lp, 0, 9), Err(CustomError::FailedToAddLiquidity));
    assert_eq!(pool.total_supply, 0);
    assert_eq!(lp.shares, 0);
}

#[test]
fn deposit_overflow_fails() {
    let mut pool = pool_with(4, 9);
    pool.total_supply = u64::MAX;
    let mut lp = LiquidityProvider { shares: 0 };
    assert_eq!(pool.add_liquidity(&mut lp, 4, 9), Err(CustomError::OverflowOrUnderflowOccurred));
}

#[test]
fn deposit_share_overflow_fails() {
    let mut pool = pool_with(4, 9);
    pool.total_supply = 6;
    let mut lp = LiquidityProvider { shares: u64::MAX };
    let before = pool;
    assert_eq!(pool.add_liquidity(&mut lp, 4, 9), Err(CustomError::FailedToAllocateShares));
    assert_eq!(pool, before);
}

#[test]
fn withdrawal_pays_proportional_amounts() {
    let mut pool = LiquidityPool::new(key(1), 1, 0);
    let mut lp = LiquidityProvider { shares: 0 };
    pool.add_liquidity(&mut lp, 4, 9).unwrap();
    assert_eq!(pool.remove_liquidity(&mut lp, 3), Ok((2, 4)));
    assert_eq!(lp.shares, 3);
    assert_eq!(pool.total_supply, 3);
    assert_eq!(pool.reserve_one, 2);
    assert_eq!(pool.reserve_two, 5);
}

#[test]
fn withdrawal_beyond_shares_changes_nothing() {
    let mut pool = LiquidityPool::new(key(1), 1, 0);
    let mut lp = LiquidityProvider { shares: 0 };
    pool.add_liquidity(&mut lp, 4, 9).unwrap();
    let before_pool = pool;
    let before_lp = lp;
    assert_eq!(pool.remove_liquidity(&mut lp, 7), Err(CustomError::InsufficientShares));
    assert_eq!(pool, before_pool);
    assert_eq!(lp, before_lp);
}

#[test]
fn withdrawal_of_nothing_fails() {
    let mut pool = pool_with(4, 9);
    pool.total_supply = 6;
    let mut lp = LiquidityProvider { shares: 6 };
    assert_eq!(pool.remove_liquidity(&mut lp, 0), Err(CustomError::FailedToRemoveLiquidity));
    let mut small = pool_with(1, 1);
    small.total_supply = 6;
    assert_eq!(small.remove_liquidity(&mut lp, 1), Err(CustomError::FailedToRemoveLiquidity));
}

#[test]
fn share_ledger_checks() {
    let mut pool = pool_with(0, 0);
    let mut lp = LiquidityProvider { shares: 5 };
    assert_eq!(pool.remove_shares(&mut lp, 6), Err(CustomError::FailedToDeallocateShares));
    assert_eq!(pool.remove_shares(&mut lp, 1), Err(CustomError::OverflowOrUnderflowOccurred));
    assert_eq!(pool.grant_shares(&mut lp, 3), Ok(()));
    assert_eq!((lp.shares, pool.total_supply), (8, 3));
    assert_eq!(pool.remove_shares(&mut lp, 2), Ok(()));
    assert_eq!((lp.shares, pool.total_supply), (6, 1));
    let mut full = LiquidityProvider { shares: u64::MAX };
    assert_eq!(pool.grant_shares(&mut full, 1), Err(CustomError::FailedToAllocateShares));
    assert_eq!(pool.update_reserves(3, 4), Ok(()));
    assert_eq!((pool.reserve_one, pool.reserve_two), (3, 4));
}

#[test]
fn effective_reserve_saturates() {
    let mut pool = LiquidityPool::new(key(1), 1, 50);
    pool.reserve_two = 25;
    assert_eq!(pool.effective_sol_reserve(), 75);
    pool.reserve_two = u64::MAX - 10;
    assert_eq!(pool.effective_sol_reserve(), u64::MAX);
}

#[test]
fn position_cost_basis() {
    let mut pos = UserPosition::new(key(1), key(2), 3);
    assert_eq!(pos.calculate_cost_basis_for_sale(10), Ok(0));
    pos.total_tokens = 3;
    pos.total_sol = 10;
    assert_eq!(pos.calculate_cost_basis_for_sale(2), Ok(6));
    pos.total_tokens = 1;
    pos.total_sol = u64::MAX;
    assert_eq!(pos.calculate_cost_basis_for_sale(2), Err(CustomError::MathOverflow));
}

#[test]
fn position_buy_and_sell_records() {
    let mut pos = UserPosition::new(key(1), key(2), 3);
    assert_eq!(pos.record_buy(100, 1000), Ok(()));
    assert_eq!(pos.record_buy(50, 500), Ok(()));
    assert_eq!((pos.total_tokens, pos.total_sol), (150, 1500));
    assert_eq!(pos.record_buy(u64::MAX, 0), Err(CustomError::MathOverflow));
    assert_eq!(pos.record_sell(151, 0), Err(CustomError::InsufficientPosition));
    assert_eq!(pos.record_sell(10, 1501), Err(CustomError::MathOverflow));
    assert_eq!(pos.record_sell(50, 500), Ok(()));
    assert_eq!((pos.total_tokens, pos.total_sol), (100, 1000));
    assert_eq!(pos.record_sell(100, 999), Ok(()));
    assert_eq!((pos.total_tokens, pos.total_sol), (0, 0));
}

#[test]
fn selling_everything_clears_cost() {
    let mut pos = UserPosition::new(key(1), key(2), 3);
    pos.record_buy(7, 1001).unwrap();
    let cost = pos.calculate_cost_basis_for_sale(7).unwrap();
    assert_eq!(cost, 1001);
    pos.record_sell(7, cost).unwrap();
    assert_eq!((pos.total_tokens, pos.total_sol), (0, 0));
}

#[test]
fn config_update_by_admin() {
    let mut cfg = config(100, 5000);
    assert_eq!(cfg.default_virtual_sol, 50_000_000_000);
    assert_eq!(update_configuration(&mut cfg, &key(9), Some(250), Some(key(4)), Some(10000)), Ok(()));
    assert_eq!(cfg.fees, 250);
    assert_eq!(cfg.treasury, key(4));
    assert_eq!(cfg.paperhand_tax_bps, 10000);
    assert_eq!(cfg.admin, key(9));
}

#[test]
fn config_update_without_fields_changes_nothing() {
    let mut cfg = config(100, 5000);
    let before = cfg;
    assert_eq!(update_configuration(&mut cfg, &key(9), None, None, None), Ok(()));
    assert_eq!(cfg, before);
}

#[test]
fn config_update_rejects_fee_above_limit() {
    let mut cfg = config(100, 5000);
    let before = cfg;
    let r = update_configuration(&mut cfg, &key(9), Some(10001), Some(key(4)), Some(10));
    assert_eq!(r, Err(CustomError::InvalidFee));
    assert_eq!(cfg, before);
}

#[test]
fn config_update_rejects_tax_above_limit() {
    let mut cfg = config(100, 5000);
    let before = cfg;
    let r = update_configuration(&mut cfg, &key(9), Some(10), None, Some(10001));
    assert_eq!(r, Err(CustomError::InvalidTaxBps));
    assert_eq!(cfg, before);
}

#[test]
fn config_update_rejects_other_caller() {
    let mut cfg = config(100, 5000);
    let before = cfg;
    let r = update_configuration(&mut cfg, &key(8), Some(10), None, None);
    assert_eq!(r, Err(CustomError::Unauthorized));
    assert_eq!(cfg, before);
}

#[test]
fn arithmetic_helpers() {
    assert_eq!(integer_sqrt(0), 0);
    assert_eq!(integer_sqrt(1), 1);
    assert_eq!(integer_sqrt(36), 6);
    assert_eq!(integer_sqrt(35), 5);
    assert_eq!(integer_sqrt(u64::MAX as u128 * u64::MAX as u128), u64::MAX as u128);
    assert_eq!(apply_bps(10_000_000, 9900), 9_900_000);
    assert_eq!(apply_bps(u64::MAX, 10000), u64::MAX);
}
