//! Trades against a pool, with the loss tax and the user's position kept in
//! step.
use crate::errors::CustomError;
use crate::math::{apply_bps, fee_adjusted, scale_bps};
use crate::pool::is_sell;
use crate::state::{CurveConfiguration, LiquidityPool, UserPosition};
use anchor_lang::prelude::Pubkey;
use vstd::prelude::*;

verus! {

broadcast use vstd::string::to_string_from_display_ensures_for_str;

/// Notice of a completed trade.
#[derive(Debug, PartialEq, Eq)]
pub struct TradeExecuted {
    pub user: Pubkey,
    pub pool: Pubkey,
    /// "buy" or "sell".
    pub side: String,
    /// Tokens sold, or tokens received.
    pub token_amount: u64,
    /// Currency received after tax, or currency paid.
    pub sol_amount: u64,
    pub timestamp: i64,
}

/// Notice that a sale realized a loss and was taxed.
#[derive(Debug, Clone, Copy, PartialEq, Eq)]
pub struct PaperhandTaxApplied {
    pub user: Pubkey,
    pub pool: Pubkey,
    pub sol_out_before_tax: u64,
    pub cost_basis_for_sale: u64,
    pub tax: u64,
    pub sol_to_user: u64,
}

/// Notice of a position's totals after a trade.
#[derive(Debug, Clone, Copy, PartialEq, Eq)]
pub struct PositionUpdated {
    pub user: Pubkey,
    pub pool: Pubkey,
    pub total_tokens: u64,
    pub total_sol: u64,
}

/// What a completed trade owes and announces. A sale moves the sold tokens
/// from the user to the pool, `output_amount` currency from the pool to the
/// user and `tax_amount` currency to the treasury; a purchase moves the paid
/// currency from the user to the pool and `output_amount` tokens to the user.
#[derive(Debug, PartialEq, Eq)]
pub struct SwapOutcome {
    pub output_amount: u64,
    pub tax_amount: u64,
    pub trade: TradeExecuted,
    pub tax_applied: Option<PaperhandTaxApplied>,
    pub position_updated: PositionUpdated,
}

/// Tax on a sale paying `pre_tax` whose cost basis is `cost_basis`: a share
/// of `tax_bps` of the output when the sale realizes a loss, else nothing.
pub open spec fn paperhand_tax(pre_tax: int, cost_basis: int, tax_bps: int) -> int {
    if pre_tax < cost_basis {
        scale_bps(pre_tax, tax_bps)
    } else {
        0
    }
}

/// Why a trade is rejected, if it is, checking in order: the amount, the
/// price, the slippage bound, the seller's holdings, the input reserve, the
/// buyer's position.
pub open spec fn swap_failure(
    pool: LiquidityPool,
    config: CurveConfiguration,
    position: UserPosition,
    amount: int,
    style: u64,
    min_amount_out: int,
) -> Option<CustomError> {
    let out = pool.swap_output(config.fees as int, amount, style);
    if amount <= 0 {
        Some(CustomError::InvalidAmount)
    } else if !pool.can_price(config.fees as int, amount, style) {
        Some(CustomError::MathOverflow)
    } else if out < min_amount_out {
        Some(CustomError::SlippageExceeded)
    } else if is_sell(style) && position.total_tokens < amount {
        Some(CustomError::InsufficientPosition)
    } else if !pool.input_fits(amount, style) {
        Some(CustomError::OverflowOrUnderflowOccurred)
    } else if !is_sell(style) && (position.total_tokens + out > u64::MAX || position.total_sol
        + amount > u64::MAX) {
        Some(CustomError::MathOverflow)
    } else {
        None
    }
}

/// The position after a trade: a sale removes the sold tokens and their cost
/// basis, a purchase adds the tokens received and the raw currency paid.
pub open spec fn position_after_swap(
    pool: LiquidityPool,
    config: CurveConfiguration,
    position: UserPosition,
    amount: int,
    style: u64,
) -> UserPosition {
    if is_sell(style) {
        position.after_sell(amount, position.cost_basis(amount))
    } else {
        position.after_buy(pool.swap_output(config.fees as int, amount, style), amount)
    }
}

/// Tax owed on a sale and what the seller receives after it.
pub fn apply_paperhand_tax(sol_out_before_tax: u64, cost_basis_for_sale: u64, tax_bps: u16) -> (r: (
    u64,
    u64,
))
    requires
        tax_bps <= 10000,
    ensures
        r.0 == paperhand_tax(sol_out_before_tax as int, cost_basis_for_sale as int, tax_bps as int),
        r.1 == sol_out_before_tax - r.0,
        r.0 > 0 ==> sol_out_before_tax < cost_basis_for_sale,
        tax_bps == 0 ==> r.0 == 0,
{
    if sol_out_before_tax < cost_basis_for_sale {
        let tax = apply_bps(sol_out_before_tax, tax_bps as u64);
        assert(tax_bps == 0 ==> sol_out_before_tax * tax_bps == 0);
        (tax, sol_out_before_tax - tax)
    } else {
        (0, sol_out_before_tax)
    }
}

/// Trades `amount` against `pool`: `style` 1 sells tokens for currency, any
/// other style buys tokens with currency, and the output must reach
/// `min_amount_out`. A sale at a loss against the position's cost basis pays
/// the loss tax. On success the pool and the position are updated and the
/// transfers and notices are returned; on failure nothing changes.
pub fn swap(
    pool: &mut LiquidityPool,
    config: &CurveConfiguration,
    position: &mut UserPosition,
    amount: u64,
    style: u64,
    min_amount_out: u64,
    timestamp: i64,
) -> (r: Result<SwapOutcome, CustomError>)
    requires
        config.wf(),
    ensures
        ({
            let failure = swap_failure(
                *old(pool),
                *config,
                *old(position),
                amount as int,
                style,
                min_amount_out as int,
            );
            let out = old(pool).swap_output(config.fees as int, amount as int, style);
            let cost = old(position).cost_basis(amount as int);
            let tax = paperhand_tax(out, cost, config.paperhand_tax_bps as int);
            &&& failure matches Some(e) ==> r == Err::<SwapOutcome, CustomError>(e) && *final(pool)
                == *old(pool) && *final(position) == *old(position)
            &&& failure is None ==> r is Ok && *final(pool) == old(pool).after_swap(
                config.fees as int,
                amount as int,
                style,
            ) && *final(position) == position_after_swap(
                *old(pool),
                *config,
                *old(position),
                amount as int,
                style,
            )
            &&& r matches Ok(o) ==> {
                &&& o.trade.user == old(position).owner
                &&& o.trade.pool == old(position).pool
                &&& o.trade.timestamp == timestamp
                &&& o.position_updated == (PositionUpdated {
                    user: old(position).owner,
                    pool: old(position).pool,
                    total_tokens: final(position).total_tokens,
                    total_sol: final(position).total_sol,
                })
                &&& is_sell(style) ==> {
                    &&& o.tax_amount == tax
                    &&& o.output_amount == out - tax
                    &&& o.trade.side@ == "sell"@
                    &&& o.trade.token_amount == amount
                    &&& o.trade.sol_amount == out - tax
                    &&& (o.tax_applied is Some <==> out < cost)
                    &&& o.tax_applied matches Some(t) ==> t == (PaperhandTaxApplied {
                        user: old(position).owner,
                        pool: old(position).pool,
                        sol_out_before_tax: out as u64,
                        cost_basis_for_sale: cost as u64,
                        tax: tax as u64,
                        sol_to_user: (out - tax) as u64,
                    })
                }
                &&& !is_sell(style) ==> {
                    &&& o.tax_amount == 0
                    &&& o.output_amount == out
                    &&& o.trade.side@ == "buy"@
                    &&& o.trade.token_amount == out
                    &&& o.trade.sol_amount == amount
                    &&& o.tax_applied is None
                }
            }
        }),
{
    if amount == 0 {
        return Err(CustomError::InvalidAmount);
    }
    let out = pool.quote_swap(config.fees, amount, style)?;
    if out < min_amount_out {
        return Err(CustomError::SlippageExceeded);
    }
    if style == 1 {
        if position.total_tokens < amount {
            return Err(CustomError::InsufficientPosition);
        }
        if amount > u64::MAX - pool.reserve_one {
            return Err(CustomError::OverflowOrUnderflowOccurred);
        }
        let cost_basis_for_sale = match position.calculate_cost_basis_for_sale(amount) {
            Ok(c) => c,
            Err(e) => {
                return Err(e);
            },
        };
        let (tax, sol_to_user) = apply_paperhand_tax(
            out,
            cost_basis_for_sale,
            config.paperhand_tax_bps,
        );
        let tax_applied = if out < cost_basis_for_sale {
            Some(
                PaperhandTaxApplied {
                    user: position.owner,
                    pool: position.pool,
                    sol_out_before_tax: out,
                    cost_basis_for_sale,
                    tax,
                    sol_to_user,
                },
            )
        } else {
            None
        };
        let new_reserves_one: u64 = pool.reserve_one + amount;
        let new_reserves_two: u64 = pool.reserve_two - out;
        let _ = pool.update_reserves(new_reserves_one, new_reserves_two);
        let _ = position.record_sell(amount, cost_basis_for_sale);
        Ok(
            SwapOutcome {
                output_amount: sol_to_user,
                tax_amount: tax,
                trade: TradeExecuted {
                    user: position.owner,
                    pool: position.pool,
                    side: "sell".to_string(),
                    token_amount: amount,
                    sol_amount: sol_to_user,
                    timestamp,
                },
                tax_applied,
                position_updated: PositionUpdated {
                    user: position.owner,
                    pool: position.pool,
                    total_tokens: position.total_tokens,
                    total_sol: position.total_sol,
                },
            },
        )
    } else {
        if amount > u64::MAX - pool.reserve_two {
            return Err(CustomError::OverflowOrUnderflowOccurred);
        }
        if out > u64::MAX - position.total_tokens || amount > u64::MAX - position.total_sol {
            return Err(CustomError::MathOverflow);
        }
        let new_reserves_one: u64 = pool.reserve_one - out;
        let new_reserves_two: u64 = pool.reserve_two + amount;
        let _ = pool.update_reserves(new_reserves_one, new_reserves_two);
        let _ = position.record_buy(out, amount);
        Ok(
            SwapOutcome {
                output_amount: out,
                tax_amount: 0,
                trade: TradeExecuted {
                    user: position.owner,
                    pool: position.pool,
                    side: "buy".to_string(),
                    token_amount: out,
                    sol_amount: amount,
                    timestamp,
                },
                tax_applied: None,
                position_updated: PositionUpdated {
                    user: position.owner,
                    pool: position.pool,
                    total_tokens: position.total_tokens,
                    total_sol: position.total_sol,
                },
            },
        )
    }
}

/// The floor-rounding loss of a trade's new output reserve is no larger than
/// what the fee keeps back: `k % d <= (k / d) * (amount - fee_adjusted)`,
/// where `k` is the reserve product and `d` the input reserve plus the
/// fee-adjusted input.
pub open spec fn fee_covers_rounding(pool: LiquidityPool, fee_bps: int, amount: int, style: u64) -> bool {
    let r_in = pool.sides(style).0;
    let r_out = pool.sides(style).1;
    let adjusted = fee_adjusted(amount, fee_bps);
    let d = r_in + adjusted;
    let k = r_in * r_out;
    k % d <= (k / d) * (amount - adjusted)
}

/// A fee is never more than the amount it is taken from.
proof fn lemma_fee_adjusted_bounded(amount: int, fee_bps: int)
    requires
        amount >= 0,
        0 <= fee_bps <= 10000,
    ensures
        0 <= fee_adjusted(amount, fee_bps) <= amount,
{
    assert(0 <= amount * (10000 - fee_bps) <= amount * 10000) by (nonlinear_arith)
        requires
            amount >= 0,
            0 <= fee_bps <= 10000,
    ;
    vstd::arithmetic::div_mod::lemma_div_is_ordered(amount * (10000 - fee_bps), amount * 10000, 10000);
    vstd::arithmetic::div_mod::lemma_div_pos_is_pos(amount * (10000 - fee_bps), 10000);
}

/// A successful trade under a non-zero fee does not lower the reserve product,
/// wherever the fee kept back covers the rounding of the new output reserve.
pub proof fn lemma_swap_keeps_product(
    pool: LiquidityPool,
    config: CurveConfiguration,
    position: UserPosition,
    amount: u64,
    style: u64,
    min_amount_out: u64,
)
    requires
        config.wf(),
        config.fees > 0,
        swap_failure(pool, config, position, amount as int, style, min_amount_out as int) is None,
        fee_covers_rounding(pool, config.fees as int, amount as int, style),
    ensures
        pool.after_swap(config.fees as int, amount as int, style).product() >= pool.product(),
{
    let fee = config.fees as int;
    let r_in = pool.sides(style).0;
    let r_out = pool.sides(style).1;
    let adjusted = fee_adjusted(amount as int, fee);
    let d = r_in + adjusted;
    let k = r_in * r_out;
    let q = k / d;
    let e = amount - adjusted;
    lemma_fee_adjusted_bounded(amount as int, fee);
    crate::math::lemma_curve_out_bounded(r_in, r_out, adjusted);
    vstd::arithmetic::div_mod::lemma_fundamental_div_mod(k, d);
    assert((d + e) * q >= k) by (nonlinear_arith)
        requires
            k == d * q + k % d,
            k % d <= q * e,
    ;
    assert(pool.reserve_one * pool.reserve_two == k) by (nonlinear_arith)
        requires
            k == r_in * r_out,
            (r_in == pool.reserve_one && r_out == pool.reserve_two) || (r_in == pool.reserve_two
                && r_out == pool.reserve_one),
    ;
    let after = pool.after_swap(fee, amount as int, style);
    if is_sell(style) {
        assert(after.reserve_one == d + e && after.reserve_two == q);
        assert(after.product() == (d + e) * q);
    } else {
        assert(after.reserve_one == q && after.reserve_two == d + e);
        assert(after.product() == (d + e) * q) by (nonlinear_arith)
            requires
                after.reserve_one == q,
                after.reserve_two == d + e,
        ;
    }
}

/// A successful trade keeps a position that holds no tokens free of cost,
/// except where a purchase into an empty position receives no tokens.
pub proof fn lemma_swap_keeps_position_wf(
    pool: LiquidityPool,
    config: CurveConfiguration,
    position: UserPosition,
    amount: u64,
    style: u64,
    min_amount_out: u64,
)
    requires
        config.wf(),
        position.wf(),
        swap_failure(pool, config, position, amount as int, style, min_amount_out as int) is None,
        is_sell(style) || position.total_tokens > 0 || pool.swap_output(
            config.fees as int,
            amount as int,
            style,
        ) > 0,
    ensures
        position_after_swap(pool, config, position, amount as int, style).wf(),
{
    lemma_fee_adjusted_bounded(amount as int, config.fees as int);
    crate::math::lemma_curve_out_bounded(
        pool.sides(style).0,
        pool.sides(style).1,
        fee_adjusted(amount as int, config.fees as int),
    );
}

} // verus!
