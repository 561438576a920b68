//! Per-user cost basis bookkeeping.
use crate::errors::CustomError;
use crate::state::UserPosition;
use anchor_lang::prelude::Pubkey;
use vstd::prelude::*;

verus! {

impl UserPosition {
    /// A position without tokens carries no cost.
    pub open spec fn wf(self) -> bool {
        self.total_tokens == 0 ==> self.total_sol == 0
    }

    /// Cost of `amount` of the held tokens at the position's average price,
    /// rounded down; zero for an empty position.
    pub open spec fn cost_basis(self, amount: int) -> int {
        if self.total_tokens == 0 {
            0
        } else {
            self.total_sol * amount / (self.total_tokens as int)
        }
    }

    /// The position once `tokens` more were bought for `sol`.
    pub open spec fn after_buy(self, tokens: int, sol: int) -> UserPosition {
        UserPosition {
            total_tokens: (self.total_tokens + tokens) as u64,
            total_sol: (self.total_sol + sol) as u64,
            ..self
        }
    }

    /// The position once `amount` tokens of cost `cost` were sold; an emptied
    /// position keeps no cost.
    pub open spec fn after_sell(self, amount: int, cost: int) -> UserPosition {
        UserPosition {
            total_tokens: (self.total_tokens - amount) as u64,
            total_sol: if self.total_tokens - amount == 0 {
                0
            } else {
                (self.total_sol - cost) as u64
            },
            ..self
        }
    }

    pub fn new(pool: Pubkey, owner: Pubkey, bump: u8) -> (r: Self)
        ensures
            r.pool == pool,
            r.owner == owner,
            r.bump == bump,
            r.total_tokens == 0,
            r.total_sol == 0,
            r.wf(),
    {
        UserPosition { pool, owner, total_tokens: 0, total_sol: 0, bump }
    }

    /// Proportional cost of selling `token_amount` tokens.
    pub fn calculate_cost_basis_for_sale(&self, token_amount: u64) -> (r: Result<u64, CustomError>)
        ensures
            self.cost_basis(token_amount as int) <= u64::MAX ==> r == Ok::<u64, CustomError>(
                self.cost_basis(token_amount as int) as u64,
            ),
            self.cost_basis(token_amount as int) > u64::MAX ==> r == Err::<u64, CustomError>(
                CustomError::MathOverflow,
            ),
            token_amount <= self.total_tokens ==> self.cost_basis(token_amount as int)
                <= self.total_sol,
    {
        if self.total_tokens == 0 {
            return Ok(0);
        }
        proof {
            crate::math::lemma_wide_mul(self.total_sol, token_amount);
            lemma_cost_basis_bounded(*self, token_amount as int);
        }
        let cost: u128 = (self.total_sol as u128) * (token_amount as u128) / (
        self.total_tokens as u128);
        if cost > u64::MAX as u128 {
            return Err(CustomError::MathOverflow);
        }
        Ok(cost as u64)
    }

    /// Adds a purchase of `tokens_received` tokens for `sol_spent`.
    pub fn record_buy(&mut self, tokens_received: u64, sol_spent: u64) -> (r: Result<(), CustomError>)
        ensures
            old(self).total_tokens + tokens_received <= u64::MAX
                && old(self).total_sol + sol_spent <= u64::MAX ==> r == Ok::<(), CustomError>(())
                && *final(self) == old(self).after_buy(tokens_received as int, sol_spent as int),
            old(self).total_tokens + tokens_received > u64::MAX
                || old(self).total_sol + sol_spent > u64::MAX ==> r == Err::<(), CustomError>(
                CustomError::MathOverflow,
            ) && *final(self) == *old(self),
    {
        if tokens_received > u64::MAX - self.total_tokens || sol_spent > u64::MAX - self.total_sol {
            return Err(CustomError::MathOverflow);
        }
        self.total_tokens = self.total_tokens + tokens_received;
        self.total_sol = self.total_sol + sol_spent;
        Ok(())
    }

    /// Removes a sale of `token_amount` tokens whose cost was `cost_basis`;
    /// a position left without tokens keeps no cost.
    pub fn record_sell(&mut self, token_amount: u64, cost_basis: u64) -> (r: Result<(), CustomError>)
        ensures
            old(self).total_tokens < token_amount ==> r == Err::<(), CustomError>(
                CustomError::InsufficientPosition,
            ) && *final(self) == *old(self),
            old(self).total_tokens >= token_amount && old(self).total_sol < cost_basis ==> r
                == Err::<(), CustomError>(CustomError::MathOverflow) && *final(self) == *old(self),
            old(self).total_tokens >= token_amount && old(self).total_sol >= cost_basis ==> r
                == Ok::<(), CustomError>(()) && *final(self) == old(self).after_sell(
                token_amount as int,
                cost_basis as int,
            ),
            final(self).wf() || *final(self) == *old(self),
    {
        if self.total_tokens < token_amount {
            return Err(CustomError::InsufficientPosition);
        }
        if self.total_sol < cost_basis {
            return Err(CustomError::MathOverflow);
        }
        self.total_tokens = self.total_tokens - token_amount;
        self.total_sol = self.total_sol - cost_basis;
        if self.total_tokens == 0 {
            self.total_sol = 0;
        }
        Ok(())
    }
}

proof fn lemma_cost_basis_bounded(p: UserPosition, amount: int)
    requires
        p.total_tokens > 0,
        0 <= amount,
    ensures
        p.cost_basis(amount) >= 0,
        amount <= p.total_tokens ==> p.cost_basis(amount) <= p.total_sol,
{
    let t = p.total_tokens as int;
    let s = p.total_sol as int;
    assert(s * amount >= 0) by (nonlinear_arith)
        requires
            s >= 0,
            amount >= 0,
    ;
    if amount <= t {
        assert(s * amount <= s * t) by (nonlinear_arith)
            requires
                s >= 0,
                amount <= t,
        ;
        vstd::arithmetic::div_mod::lemma_div_is_ordered(s * amount, s * t, t);
        vstd::arithmetic::div_mod::lemma_div_by_multiple(s, t);
    }
    vstd::arithmetic::div_mod::lemma_div_pos_is_pos(s * amount, t);
}

/// Selling every held token costs exactly the whole cost basis, and leaves
/// the position with neither tokens nor cost.
pub proof fn lemma_sell_all_clears_cost_basis(p: UserPosition)
    requires
        p.total_tokens > 0,
    ensures
        p.cost_basis(p.total_tokens as int) == p.total_sol,
        p.after_sell(p.total_tokens as int, p.cost_basis(p.total_tokens as int)).total_tokens == 0,
        p.after_sell(p.total_tokens as int, p.cost_basis(p.total_tokens as int)).total_sol == 0,
{
    vstd::arithmetic::div_mod::lemma_div_by_multiple(p.total_sol as int, p.total_tokens as int);
}

/// Sum of the tokens received over a run of purchases `(tokens, currency)`.
pub open spec fn sum_tokens(buys: Seq<(u64, u64)>) -> int
    decreases buys.len(),
{
    if buys.len() == 0 {
        0
    } else {
        sum_tokens(buys.drop_last()) + buys.last().0
    }
}

/// Sum of the currency paid over a run of purchases `(tokens, currency)`.
pub open spec fn sum_paid(buys: Seq<(u64, u64)>) -> int
    decreases buys.len(),
{
    if buys.len() == 0 {
        0
    } else {
        sum_paid(buys.drop_last()) + buys.last().1
    }
}

/// The position after each purchase of `buys` was recorded, in order.
pub open spec fn after_buys(p: UserPosition, buys: Seq<(u64, u64)>) -> UserPosition
    decreases buys.len(),
{
    if buys.len() == 0 {
        p
    } else {
        after_buys(p, buys.drop_last()).after_buy(buys.last().0 as int, buys.last().1 as int)
    }
}

proof fn lemma_sums_monotone(buys: Seq<(u64, u64)>)
    requires
        buys.len() > 0,
    ensures
        sum_tokens(buys.drop_last()) <= sum_tokens(buys),
        sum_paid(buys.drop_last()) <= sum_paid(buys),
{
}

/// A position built from purchases alone, starting empty, holds the sum of
/// the tokens received and has a cost basis equal to the sum of the currency
/// paid.
pub proof fn lemma_buys_only_cost_basis(p: UserPosition, buys: Seq<(u64, u64)>)
    requires
        p.total_tokens == 0,
        p.total_sol == 0,
        sum_tokens(buys) <= u64::MAX,
        sum_paid(buys) <= u64::MAX,
    ensures
        after_buys(p, buys).total_tokens == sum_tokens(buys),
        after_buys(p, buys).total_sol == sum_paid(buys),
    decreases buys.len(),
{
    if buys.len() > 0 {
        lemma_sums_monotone(buys);
        lemma_buys_only_cost_basis(p, buys.drop_last());
    }
}

} // verus!
