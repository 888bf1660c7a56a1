//! One trading pair.
use vstd::prelude::*;

verus! {

/// A trading pair, shared by all positions on it.
#[derive(Debug, Clone, PartialEq, Eq)]
pub struct Market {
    pub bump: u8,
    pub pair: String,
    /// Decimals of the token: a quantity `q` stands for `q / 10^decimals`
    /// tokens.
    pub decimals: u8,
    /// Oracle feed of the pair, in hex.
    pub feed_id: String,
    /// Positions on this pair that are open.
    pub total_active_positions: u64,
    pub is_paused: bool,
}

} // verus!
