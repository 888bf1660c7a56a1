//! The venue's parameters: one record, set once.
use vstd::prelude::*;
use crate::BASIS_POINTS;

verus! {

/// The parameters that every operation reads.
#[derive(Debug, Clone, PartialEq, Eq)]
pub struct Config {
    /// Zero until the record is initialized.
    pub bump: u8,
    /// While set, every operation that changes a record is refused.
    pub is_paused: bool,
    pub admin: [u8; 32],
    /// Highest leverage of a new position, in basis points (1x = 10000).
    pub max_leverage: u64,
    pub liquidation_fee: u64,
    /// Margin that keeps a position open, in basis points of its value.
    pub maintainance_margin: u16,
    /// Fee on the collateral of a position that opens, in basis points.
    pub opening_fee: u16,
    /// Fee on the value of a position that closes, in basis points.
    pub closing_fee: u16,
    pub privacy_fee: u16,
    /// Part of every fee that goes to the protocol, in basis points; the
    /// rest goes to the liquidity providers.
    pub protocol_fee_share: u16,
    /// Tick of the last change.
    pub last_updated: u64,
}

impl Config {
    /// The fee share and the maintenance margin are at most one whole.
    pub open spec fn well_formed(&self) -> bool {
        &&& self.maintainance_margin <= BASIS_POINTS
        &&& self.protocol_fee_share <= BASIS_POINTS
    }
}

} // verus!
