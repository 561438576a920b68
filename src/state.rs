use anchor_lang::prelude::Pubkey;
use vstd::prelude::*;

verus! {

#[verifier::external_type_specification]
#[verifier::external_body]
pub struct ExPubkey(Pubkey);

/// Relies on the derived `PartialEq` of anchor's `Pubkey` (a newtype over
/// `[u8; 32]`): two keys compare equal exactly when they are the same value.
#[verifier::external_body]
pub(crate) fn same_key(a: &Pubkey, b: &Pubkey) -> (r: bool)
    ensures
        r == (*a == *b),
{
    a == b
}

/// One basis point is one ten-thousandth.
pub const BPS_DENOMINATOR: u64 = 10000;

/// Virtual currency reserve given to new pools: 50 units of 10^9.
pub const DEFAULT_VIRTUAL_SOL: u64 = 50_000_000_000;

/// Fee and tax rates, and the identities that administer them.
#[derive(Debug, Clone, Copy, PartialEq, Eq)]
pub struct CurveConfiguration {
    /// Trade fee in basis points.
    pub fees: u16,
    /// Account that receives the tax on loss-making sales.
    pub treasury: Pubkey,
    /// Tax on loss-making sales, in basis points.
    pub paperhand_tax_bps: u16,
    /// The only identity allowed to change this configuration.
    pub admin: Pubkey,
    /// Virtual currency reserve given to pools created under this configuration.
    pub default_virtual_sol: u64,
}

impl CurveConfiguration {
    /// Both rates are within `[0, 10000]` basis points.
    pub open spec fn wf(self) -> bool {
        self.fees <= BPS_DENOMINATOR && self.paperhand_tax_bps <= BPS_DENOMINATOR
    }

    pub fn new(fees: u16, treasury: Pubkey, paperhand_tax_bps: u16, admin: Pubkey) -> (r: Self)
        ensures
            r.fees == fees,
            r.treasury == treasury,
            r.paperhand_tax_bps == paperhand_tax_bps,
            r.admin == admin,
            r.default_virtual_sol == DEFAULT_VIRTUAL_SOL,
    {
        CurveConfiguration {
            fees,
            treasury,
            paperhand_tax_bps,
            admin,
            default_virtual_sol: DEFAULT_VIRTUAL_SOL,
        }
    }
}

/// One user's holdings in one pool, with what they cost.
#[derive(Debug, Clone, Copy, PartialEq, Eq)]
pub struct UserPosition {
    /// The pool this position is for.
    pub pool: Pubkey,
    /// The holder of this position.
    pub owner: Pubkey,
    /// Tokens held, in smallest units.
    pub total_tokens: u64,
    /// Currency paid for the tokens held (the cost basis).
    pub total_sol: u64,
    /// Nonce used only to find the position's address.
    pub bump: u8,
}

/// A liquidity provider's entry in a pool's share ledger.
#[derive(Debug, Clone, Copy, PartialEq, Eq, Structural)]
pub struct LiquidityProvider {
    pub shares: u64,
}

/// Reserves and outstanding shares of one token/currency pool.
#[derive(Debug, Clone, Copy, PartialEq, Eq)]
pub struct LiquidityPool {
    /// The pool's token.
    pub token_one: Pubkey,
    /// Second key of the pool, equal to the first.
    pub token_two: Pubkey,
    /// Shares outstanding.
    pub total_supply: u64,
    /// Token reserve.
    pub reserve_one: u64,
    /// Currency reserve.
    pub reserve_two: u64,
    /// Constant added to the currency reserve for pricing only.
    pub virtual_sol_reserve: u64,
    /// Nonce used only to find the pool's address.
    pub bump: u8,
}

} // verus!
