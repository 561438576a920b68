//! Pool reserves, the share ledger, and constant-product pricing.
use crate::errors::CustomError;
use crate::math::{
    apply_bps,
    constant_product_out,
    curve_out,
    fee_adjusted,
    integer_sqrt,
    is_integer_sqrt,
};
use crate::state::{CurveConfiguration, LiquidityPool, LiquidityProvider};
use anchor_lang::prelude::Pubkey;
use vstd::prelude::*;

verus! {

/// The integer square root of `n`.
pub open spec fn sqrt_floor(n: int) -> int {
    choose|r: int| r >= 0 && is_integer_sqrt(r, n)
}

proof fn lemma_sqrt_floor_is(r: int, n: int)
    requires
        r >= 0,
        is_integer_sqrt(r, n),
    ensures
        sqrt_floor(n) == r,
{
    let s = sqrt_floor(n);
    assert(s >= 0 && is_integer_sqrt(s, n));
    if s < r {
        assert((s + 1) * (s + 1) <= r * r) by (nonlinear_arith)
            requires
                0 <= s < r,
        ;
    } else if r < s {
        assert((r + 1) * (r + 1) <= s * s) by (nonlinear_arith)
            requires
                0 <= r < s,
        ;
    }
}

/// A trade of `style` 1 sells tokens for currency; any other style buys
/// tokens with currency.
pub open spec fn is_sell(style: u64) -> bool {
    style == 1
}

/// Burning `shares` of `supply` pays out no more than the whole reserve.
proof fn lemma_share_of_reserve(shares: int, reserve: int, supply: int)
    requires
        0 < shares <= supply,
        reserve >= 0,
    ensures
        0 <= shares * reserve / supply <= reserve,
{
    assert(0 <= shares * reserve <= supply * reserve) by (nonlinear_arith)
        requires
            0 < shares <= supply,
            reserve >= 0,
    ;
    assert(supply * reserve == reserve * supply) by (nonlinear_arith);
    vstd::arithmetic::div_mod::lemma_div_is_ordered(shares * reserve, reserve * supply, supply);
    vstd::arithmetic::div_mod::lemma_div_by_multiple(reserve, supply);
    vstd::arithmetic::div_mod::lemma_div_pos_is_pos(shares * reserve, supply);
}

impl LiquidityPool {
    /// The pool with the given reserves and everything else kept.
    pub open spec fn with_reserves(self, reserve_one: int, reserve_two: int) -> LiquidityPool {
        LiquidityPool { reserve_one: reserve_one as u64, reserve_two: reserve_two as u64, ..self }
    }

    /// The pool with the given share supply and everything else kept.
    pub open spec fn with_supply(self, total_supply: int) -> LiquidityPool {
        LiquidityPool { total_supply: total_supply as u64, ..self }
    }

    /// Reserve product, the constant-product invariant.
    pub open spec fn product(self) -> int {
        self.reserve_one * self.reserve_two
    }

    /// Reserves on the input and output side of a trade of `style`.
    pub open spec fn sides(self, style: u64) -> (int, int) {
        if is_sell(style) {
            (self.reserve_one as int, self.reserve_two as int)
        } else {
            (self.reserve_two as int, self.reserve_one as int)
        }
    }

    /// A trade of `amount` under a fee of `fee_bps` can be priced: the input
    /// reserve plus the fee-adjusted input is not zero.
    pub open spec fn can_price(self, fee_bps: int, amount: int, style: u64) -> bool {
        self.sides(style).0 + fee_adjusted(amount, fee_bps) > 0
    }

    /// What a trade of `amount` pays out before any tax: currency for a sale,
    /// tokens for a purchase.
    pub open spec fn swap_output(self, fee_bps: int, amount: int, style: u64) -> int {
        curve_out(self.sides(style).0, self.sides(style).1, fee_adjusted(amount, fee_bps))
    }

    /// The raw input fits the input reserve after the trade.
    pub open spec fn input_fits(self, amount: int, style: u64) -> bool {
        self.sides(style).0 + amount <= u64::MAX
    }

    /// The pool after a trade: the raw input joins its reserve, the output
    /// leaves the other.
    pub open spec fn after_swap(self, fee_bps: int, amount: int, style: u64) -> LiquidityPool {
        let out = self.swap_output(fee_bps, amount, style);
        if is_sell(style) {
            self.with_reserves(self.reserve_one + amount, self.reserve_two - out)
        } else {
            self.with_reserves(self.reserve_one - out, self.reserve_two + amount)
        }
    }

    /// Shares that a deposit mints when the pool already has shares: the
    /// smaller of the two proportional amounts; `None` when a product exceeds
    /// 64 bits or a reserve is zero.
    pub open spec fn proportional_shares(self, amount_one: int, amount_two: int) -> Option<int> {
        let m1 = amount_one * self.total_supply;
        let m2 = amount_two * self.total_supply;
        if m1 > u64::MAX || m2 > u64::MAX || self.reserve_one == 0 || self.reserve_two == 0 {
            None
        } else {
            let s1 = m1 / (self.reserve_one as int);
            let s2 = m2 / (self.reserve_two as int);
            Some(if s1 <= s2 { s1 } else { s2 })
        }
    }

    /// Shares that a deposit mints: the integer square root of the product of
    /// the amounts into a pool without shares, else the proportional amount.
    pub open spec fn shares_to_mint(self, amount_one: int, amount_two: int) -> Option<int> {
        if self.total_supply == 0 {
            Some(sqrt_floor(amount_one * amount_two))
        } else {
            self.proportional_shares(amount_one, amount_two)
        }
    }

    /// Why a deposit is rejected, if it is.
    pub open spec fn add_liquidity_failure(
        self,
        provider: LiquidityProvider,
        amount_one: int,
        amount_two: int,
    ) -> Option<CustomError> {
        match self.shares_to_mint(amount_one, amount_two) {
            None => Some(CustomError::OverflowOrUnderflowOccurred),
            Some(s) => if s <= 0 {
                Some(CustomError::FailedToAddLiquidity)
            } else if provider.shares + s > u64::MAX {
                Some(CustomError::FailedToAllocateShares)
            } else if self.total_supply + s > u64::MAX {
                Some(CustomError::OverflowOrUnderflowOccurred)
            } else if self.reserve_one + amount_one > u64::MAX || self.reserve_two + amount_two
                > u64::MAX {
                Some(CustomError::OverflowOrUnderflowOccurred)
            } else {
                None
            },
        }
    }

    /// Token and currency paid out for burning `shares`, rounded down.
    pub open spec fn withdrawal(self, shares: int) -> (int, int) {
        (
            shares * self.reserve_one / (self.total_supply as int),
            shares * self.reserve_two / (self.total_supply as int),
        )
    }

    /// Why a withdrawal is rejected, if it is.
    pub open spec fn remove_liquidity_failure(self, provider: LiquidityProvider, shares: int) -> Option<
        CustomError,
    > {
        if shares <= 0 {
            Some(CustomError::FailedToRemoveLiquidity)
        } else if provider.shares < shares {
            Some(CustomError::InsufficientShares)
        } else if shares * self.reserve_one > u64::MAX || shares * self.reserve_two > u64::MAX
            || self.total_supply == 0 {
            Some(CustomError::OverflowOrUnderflowOccurred)
        } else if self.withdrawal(shares).0 <= 0 || self.withdrawal(shares).1 <= 0 {
            Some(CustomError::FailedToRemoveLiquidity)
        } else if self.total_supply < shares {
            Some(CustomError::OverflowOrUnderflowOccurred)
        } else {
            None
        }
    }

    /// A pool for `token_one` without reserves or shares.
    pub fn new(token_one: Pubkey, bump: u8, virtual_sol: u64) -> (r: Self)
        ensures
            r.token_one == token_one,
            r.token_two == token_one,
            r.total_supply == 0,
            r.reserve_one == 0,
            r.reserve_two == 0,
            r.virtual_sol_reserve == virtual_sol,
            r.bump == bump,
    {
        LiquidityPool {
            token_one,
            token_two: token_one,
            total_supply: 0,
            reserve_one: 0,
            reserve_two: 0,
            virtual_sol_reserve: virtual_sol,
            bump,
        }
    }

    /// Real plus virtual currency reserve, saturating at the largest `u64`.
    pub fn effective_sol_reserve(&self) -> (r: u64)
        ensures
            r == if self.reserve_two + self.virtual_sol_reserve > u64::MAX {
                u64::MAX as int
            } else {
                self.reserve_two + self.virtual_sol_reserve
            },
    {
        self.reserve_two.saturating_add(self.virtual_sol_reserve)
    }

    /// Adds `shares` to the provider's entry and to the supply.
    pub fn grant_shares(&mut self, liquidity_provider_account: &mut LiquidityProvider, shares: u64) -> (r:
        Result<(), CustomError>)
        ensures
            old(liquidity_provider_account).shares + shares > u64::MAX ==> r == Err::<
                (),
                CustomError,
            >(CustomError::FailedToAllocateShares),
            old(liquidity_provider_account).shares + shares <= u64::MAX && old(self).total_supply
                + shares > u64::MAX ==> r == Err::<(), CustomError>(
                CustomError::OverflowOrUnderflowOccurred,
            ),
            r is Err ==> *final(self) == *old(self) && *final(liquidity_provider_account) == *old(
                liquidity_provider_account),
            r is Ok ==> *final(self) == old(self).with_supply(old(self).total_supply + shares)
                && final(liquidity_provider_account).shares == old(liquidity_provider_account).shares
                + shares,
            old(liquidity_provider_account).shares + shares <= u64::MAX && old(self).total_supply
                + shares <= u64::MAX ==> r is Ok,
    {
        if shares > u64::MAX - liquidity_provider_account.shares {
            return Err(CustomError::FailedToAllocateShares);
        }
        if shares > u64::MAX - self.total_supply {
            return Err(CustomError::OverflowOrUnderflowOccurred);
        }
        liquidity_provider_account.shares = liquidity_provider_account.shares + shares;
        self.total_supply = self.total_supply + shares;
        Ok(())
    }

    /// Takes `shares` from the provider's entry and from the supply.
    pub fn remove_shares(&mut self, liquidity_provider_account: &mut LiquidityProvider, shares: u64) -> (r:
        Result<(), CustomError>)
        ensures
            old(liquidity_provider_account).shares < shares ==> r == Err::<(), CustomError>(
                CustomError::FailedToDeallocateShares,
            ),
            old(liquidity_provider_account).shares >= shares && old(self).total_supply < shares
                ==> r == Err::<(), CustomError>(CustomError::OverflowOrUnderflowOccurred),
            r is Err ==> *final(self) == *old(self) && *final(liquidity_provider_account) == *old(
                liquidity_provider_account),
            r is Ok ==> *final(self) == old(self).with_supply(old(self).total_supply - shares)
                && final(liquidity_provider_account).shares == old(liquidity_provider_account).shares
                - shares,
            old(liquidity_provider_account).shares >= shares && old(self).total_supply >= shares
                ==> r is Ok,
    {
        if liquidity_provider_account.shares < shares {
            return Err(CustomError::FailedToDeallocateShares);
        }
        if self.total_supply < shares {
            return Err(CustomError::OverflowOrUnderflowOccurred);
        }
        liquidity_provider_account.shares = liquidity_provider_account.shares - shares;
        self.total_supply = self.total_supply - shares;
        Ok(())
    }

    /// Sets both reserves.
    pub fn update_reserves(&mut self, reserve_one: u64, reserve_two: u64) -> (r: Result<(), CustomError>)
        ensures
            r == Ok::<(), CustomError>(()),
            *final(self) == old(self).with_reserves(reserve_one as int, reserve_two as int),
    {
        self.reserve_one = reserve_one;
        self.reserve_two = reserve_two;
        Ok(())
    }

    /// Deposits `amount_one` tokens and `amount_two` currency and credits the
    /// provider with the minted shares, which it returns.
    pub fn add_liquidity(
        &mut self,
        liquidity_provider_account: &mut LiquidityProvider,
        amount_one: u64,
        amount_two: u64,
    ) -> (r: Result<u64, CustomError>)
        ensures
            ({
                let failure = old(self).add_liquidity_failure(
                    *old(liquidity_provider_account),
                    amount_one as int,
                    amount_two as int,
                );
                let shares = old(self).shares_to_mint(amount_one as int, amount_two as int)->0;
                &&& failure matches Some(e) ==> r == Err::<u64, CustomError>(e)
                    && *final(self) == *old(self) && *final(liquidity_provider_account) == *old(
                    liquidity_provider_account)
                &&& failure is None ==> r == Ok::<u64, CustomError>(shares as u64)
                    && *final(self) == old(self).with_supply(old(self).total_supply + shares).with_reserves(
                    old(self).reserve_one + amount_one,
                    old(self).reserve_two + amount_two,
                ) && final(liquidity_provider_account).shares == old(
                    liquidity_provider_account).shares + shares
            }),
    {
        let shares_to_allocate: u64;
        if self.total_supply == 0 {
            proof {
                crate::math::lemma_wide_mul(amount_one, amount_two);
            }
            let product: u128 = (amount_one as u128) * (amount_two as u128);
            let root: u128 = integer_sqrt(product);
            proof {
                lemma_sqrt_floor_is(root as int, product as int);
                assert(root <= u64::MAX) by (nonlinear_arith)
                    requires
                        root * root <= product,
                        product <= u64::MAX * u64::MAX,
                        root >= 0,
                ;
            }
            shares_to_allocate = root as u64;
        } else {
            proof {
                crate::math::lemma_wide_mul(amount_one, self.total_supply);
                crate::math::lemma_wide_mul(amount_two, self.total_supply);
            }
            let mul_one: u128 = (amount_one as u128) * (self.total_supply as u128);
            let mul_two: u128 = (amount_two as u128) * (self.total_supply as u128);
            if mul_one > u64::MAX as u128 || mul_two > u64::MAX as u128 || self.reserve_one == 0
                || self.reserve_two == 0 {
                return Err(CustomError::OverflowOrUnderflowOccurred);
            }
            let shares_one: u64 = (mul_one as u64) / self.reserve_one;
            let shares_two: u64 = (mul_two as u64) / self.reserve_two;
            shares_to_allocate = if shares_one <= shares_two {
                shares_one
            } else {
                shares_two
            };
        }
        if shares_to_allocate == 0 {
            return Err(CustomError::FailedToAddLiquidity);
        }
        if amount_one > u64::MAX - self.reserve_one || amount_two > u64::MAX - self.reserve_two {
            if shares_to_allocate > u64::MAX - liquidity_provider_account.shares {
                return Err(CustomError::FailedToAllocateShares);
            }
            return Err(CustomError::OverflowOrUnderflowOccurred);
        }
        self.grant_shares(liquidity_provider_account, shares_to_allocate)?;
        let new_reserves_one: u64 = self.reserve_one + amount_one;
        let new_reserves_two: u64 = self.reserve_two + amount_two;
        self.update_reserves(new_reserves_one, new_reserves_two)?;
        Ok(shares_to_allocate)
    }

    /// Burns `shares` of the provider and takes the proportional token and
    /// currency amounts out of the reserves; returns those amounts, which are
    /// owed to the provider.
    pub fn remove_liquidity(
        &mut self,
        liquidity_provider_account: &mut LiquidityProvider,
        shares: u64,
    ) -> (r: Result<(u64, u64), CustomError>)
        ensures
            ({
                let failure = old(self).remove_liquidity_failure(
                    *old(liquidity_provider_account),
                    shares as int,
                );
                let out = old(self).withdrawal(shares as int);
                &&& failure matches Some(e) ==> r == Err::<(u64, u64), CustomError>(e)
                    && *final(self) == *old(self) && *final(liquidity_provider_account) == *old(
                    liquidity_provider_account)
                &&& failure is None ==> r == Ok::<(u64, u64), CustomError>(
                    (out.0 as u64, out.1 as u64),
                ) && *final(self) == old(self).with_supply(old(self).total_supply - shares).with_reserves(
                    old(self).reserve_one - out.0,
                    old(self).reserve_two - out.1,
                ) && final(liquidity_provider_account).shares == old(
                    liquidity_provider_account).shares - shares
            }),
    {
        if shares == 0 {
            return Err(CustomError::FailedToRemoveLiquidity);
        }
        if liquidity_provider_account.shares < shares {
            return Err(CustomError::InsufficientShares);
        }
        proof {
            crate::math::lemma_wide_mul(shares, self.reserve_one);
            crate::math::lemma_wide_mul(shares, self.reserve_two);
        }
        let mul_one: u128 = (shares as u128) * (self.reserve_one as u128);
        let mul_two: u128 = (shares as u128) * (self.reserve_two as u128);
        if mul_one > u64::MAX as u128 || mul_two > u64::MAX as u128 || self.total_supply == 0 {
            return Err(CustomError::OverflowOrUnderflowOccurred);
        }
        let amount_out_one: u64 = (mul_one as u64) / self.total_supply;
        let amount_out_two: u64 = (mul_two as u64) / self.total_supply;
        if amount_out_one == 0 || amount_out_two == 0 {
            return Err(CustomError::FailedToRemoveLiquidity);
        }
        proof {
            if shares <= self.total_supply {
                lemma_share_of_reserve(shares as int, self.reserve_one as int, self.total_supply as int);
                lemma_share_of_reserve(shares as int, self.reserve_two as int, self.total_supply as int);
            }
        }
        self.remove_shares(liquidity_provider_account, shares)?;
        let new_reserves_one: u64 = self.reserve_one - amount_out_one;
        let new_reserves_two: u64 = self.reserve_two - amount_out_two;
        self.update_reserves(new_reserves_one, new_reserves_two)?;
        Ok((amount_out_one, amount_out_two))
    }

    /// Prices a trade of `amount` of `style` under a fee of `fee_bps`: what
    /// it pays out before any tax.
    pub fn quote_swap(&self, fee_bps: u16, amount: u64, style: u64) -> (r: Result<u64, CustomError>)
        requires
            fee_bps <= 10000,
        ensures
            !self.can_price(fee_bps as int, amount as int, style) ==> r == Err::<u64, CustomError>(
                CustomError::MathOverflow,
            ),
            self.can_price(fee_bps as int, amount as int, style) ==> r == Ok::<u64, CustomError>(
                self.swap_output(fee_bps as int, amount as int, style) as u64,
            ),
            self.can_price(fee_bps as int, amount as int, style) ==> 0 <= self.swap_output(
                fee_bps as int,
                amount as int,
                style,
            ) <= self.sides(style).1,
    {
        let adjusted_amount: u64 = apply_bps(amount, 10000 - fee_bps as u64);
        let priced = if style == 1 {
            constant_product_out(self.reserve_one, self.reserve_two, adjusted_amount)
        } else {
            constant_product_out(self.reserve_two, self.reserve_one, adjusted_amount)
        };
        match priced {
            Some(out) => Ok(out),
            None => Err(CustomError::MathOverflow),
        }
    }

    /// Trades `amount` of `style` against the pool alone: updates the
    /// reserves and returns what the trader receives.
    pub fn swap(&mut self, config: &CurveConfiguration, amount: u64, style: u64) -> (r: Result<
        u64,
        CustomError,
    >)
        requires
            config.wf(),
        ensures
            amount == 0 ==> r == Err::<u64, CustomError>(CustomError::InvalidAmount),
            amount > 0 && !old(self).can_price(config.fees as int, amount as int, style) ==> r
                == Err::<u64, CustomError>(CustomError::MathOverflow),
            amount > 0 && old(self).can_price(config.fees as int, amount as int, style) && !old(
                self).input_fits(amount as int, style) ==> r == Err::<u64, CustomError>(
                CustomError::OverflowOrUnderflowOccurred,
            ),
            amount > 0 && old(self).can_price(config.fees as int, amount as int, style) && old(
                self).input_fits(amount as int, style) ==> r == Ok::<u64, CustomError>(
                old(self).swap_output(config.fees as int, amount as int, style) as u64,
            ) && *final(self) == old(self).after_swap(config.fees as int, amount as int, style),
            r is Err ==> *final(self) == *old(self),
    {
        if amount == 0 {
            return Err(CustomError::InvalidAmount);
        }
        let amount_out = self.quote_swap(config.fees, amount, style)?;
        if style == 1 {
            if amount > u64::MAX - self.reserve_one {
                return Err(CustomError::OverflowOrUnderflowOccurred);
            }
            let new_reserves_one: u64 = self.reserve_one + amount;
            let new_reserves_two: u64 = self.reserve_two - amount_out;
            self.update_reserves(new_reserves_one, new_reserves_two)?;
        } else {
            if amount > u64::MAX - self.reserve_two {
                return Err(CustomError::OverflowOrUnderflowOccurred);
            }
            let new_reserves_one: u64 = self.reserve_one - amount_out;
            let new_reserves_two: u64 = self.reserve_two + amount;
            self.update_reserves(new_reserves_one, new_reserves_two)?;
        }
        Ok(amount_out)
    }
}

} // verus!
