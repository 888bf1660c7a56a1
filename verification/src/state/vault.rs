//! The liquidity pool of one collateral asset.
use vstd::prelude::*;

verus! {

/// The pool that lends to positions and collects their fees.
#[derive(Debug, Clone, PartialEq, Eq)]
pub struct Vault {
    pub bump: u8,
    pub is_paused: bool,
    pub token_mint: String,
    /// Liquidity deposited by the providers.
    pub lp_deposit: u64,
    pub total_lp_shares: u64,
    /// Fees owed to the liquidity providers.
    pub accumulated_lp_fees: u64,
    pub trader_deposit: u64,
    /// Collateral of all open positions funded from this pool.
    pub trader_collateral: u64,
    /// Lent to open positions.
    pub total_borrowed: u64,
    /// Fees owed to the protocol.
    pub accumulated_fees: u64,
    pub accumulated_liquidation_rewards: u64,
}

impl Vault {
    /// No more is lent than was deposited.
    pub open spec fn well_formed(&self) -> bool {
        self.total_borrowed <= self.lp_deposit
    }

    /// What can still be lent: the deposits less what is lent, zero where
    /// more is lent than was deposited.
    pub open spec fn available(&self) -> int {
        if self.lp_deposit >= self.total_borrowed {
            self.lp_deposit - self.total_borrowed
        } else {
            0
        }
    }

    /// The liquidity that is not lent; never underflows.
    pub fn available_liquidity(&self) -> (r: u64)
        ensures
            r == self.available(),
            r <= self.lp_deposit,
    {
        self.lp_deposit.saturating_sub(self.total_borrowed)
    }
}

} // verus!
