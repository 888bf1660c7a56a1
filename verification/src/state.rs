//! The records that the operations read and change.
pub mod config;
pub mod market;
pub mod position;
pub mod trader;
pub mod vault;

pub use config::Config;
pub use market::Market;
pub use position::{
    calculate_funding_payment, calculate_health_ratio, calculate_long_position, calculate_pnl,
    calculate_pnl_after_funding,
    calculate_rebalance_with_new_target, calculate_short_position, validate_collateral,
    validate_position_size, validate_position_value, validate_price, FundingPayment, PnLResult,
    Position, PositionParams, RebalanceResult,
};
pub use trader::{Trader, TraderPoolDetail};
pub use vault::Vault;
