//! A trader, and the trader's balance in one collateral asset.
use vstd::prelude::*;

verus! {

/// One trading identity.
#[derive(Debug, Clone, PartialEq, Eq)]
pub struct Trader {
    pub owner: [u8; 32],
    pub bump: u8,
    pub privacy: bool,
    /// Positions ever opened; the id of the next one.
    pub position_count: u64,
    /// Positions open now.
    pub active_position: u64,
}

impl Trader {
    /// No more positions are open than were ever opened.
    pub open spec fn well_formed(&self) -> bool {
        self.active_position <= self.position_count
    }
}

/// A trader's balance in one collateral asset.
#[derive(Debug, Clone, PartialEq, Eq)]
pub struct TraderPoolDetail {
    pub owner: [u8; 32],
    pub bump: u8,
    pub token_mint: String,
    pub balance: u64,
    /// Part of `balance` that backs open positions.
    pub locked_balance: u64,
}

impl TraderPoolDetail {
    /// No more is locked than the balance holds.
    pub open spec fn well_formed(&self) -> bool {
        self.locked_balance <= self.balance
    }

    /// What is free to back a new position: the balance less what is
    /// locked, zero where more is locked than the balance holds.
    pub open spec fn available(&self) -> int {
        if self.balance >= self.locked_balance {
            self.balance - self.locked_balance
        } else {
            0
        }
    }

    /// The balance that is not locked; never underflows.
    pub fn available_balance(&self) -> (r: u64)
        ensures
            r == self.available(),
            r <= self.balance,
    {
        self.balance.saturating_sub(self.locked_balance)
    }
}

} // verus!
