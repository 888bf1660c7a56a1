//! Fees and proceeds: what opening and closing a position cost, how a fee
//! is shared between the protocol and the liquidity providers, and what a
//! trader gets back when a position closes.
use vstd::prelude::*;
use vstd::arithmetic::mul::lemma_mul_nonnegative;
use crate::math::{fits_u64, lemma_scaled_quotient, narrow, scaled_mul_div, unscaled};
use crate::state::config::Config;
use crate::state::position::{
    calculate_long_position, calculate_short_position, floored_sub, long_position,
    position_size_checked, position_value_checked, short_position, validate_position_size,
    validate_position_value, PnLResult, Position, PositionParams,
};
use crate::{ErrorCode, BASIS_POINTS, MIN_COLLATERAL};

verus! {

/// First target of a long position, in percent of the opening price.
pub const LONG_TARGET_PERCENT: u128 = 110;

/// First target of a short position, in percent of the opening price.
pub const SHORT_TARGET_PERCENT: u128 = 90;

/// `bps` basis points of `amount`, truncated.
pub open spec fn bps_of(amount: int, bps: int) -> int {
    amount * bps / (BASIS_POINTS as int)
}

/// First target of a position that opens at `current_price`: 10% above it
/// for a long position, 10% below it for a short one, truncated.
pub open spec fn entry_target(current_price: u64, is_long: bool) -> int {
    if is_long {
        current_price * LONG_TARGET_PERCENT / 100
    } else {
        current_price * SHORT_TARGET_PERCENT / 100
    }
}

/// What the trader gets back from a position with `collateral` behind it:
/// with a profit, the collateral and what the closing fee leaves of the
/// profit; with a loss, what the loss and the closing fee leave of the
/// collateral.
pub open spec fn amount_due(collateral: u64, result: PnLResult, closing_fee: u64) -> int {
    if result.is_profit {
        collateral + floored_sub(result.net_pnl as int, closing_fee as int)
    } else {
        floored_sub(collateral as int, result.net_pnl + closing_fee)
    }
}

/// The fee of `bps` basis points on `amount`; `MathOverflow` when it needs
/// more than 64 bits.
pub fn fee_on(amount: u64, bps: u16) -> (r: Result<u64, ErrorCode>)
    ensures
        fits_u64(bps_of(amount as int, bps as int)) ==> r == Ok::<u64, ErrorCode>(
            bps_of(amount as int, bps as int) as u64,
        ),
        !fits_u64(bps_of(amount as int, bps as int)) ==> r == Err::<u64, ErrorCode>(
            ErrorCode::MathOverflow,
        ),
{
    proof {
        lemma_mul_nonnegative(amount as int, bps as int);
        lemma_scaled_quotient(amount * bps, BASIS_POINTS as int);
        assert(amount * bps * 1_000_000 <= u64::MAX * u16::MAX * 1_000_000) by (nonlinear_arith);
    }
    let scaled = scaled_mul_div(amount as u128, bps as u128, BASIS_POINTS)?;
    narrow(unscaled(scaled))
}

/// Shares `fee` between the protocol, which gets `protocol_fee_share` basis
/// points of it, truncated, and the liquidity providers, who get the rest.
/// The two parts add up to the fee exactly.
///
/// `MathOverflow` when the share is more than the whole fee, which a share
/// of at most 10000 basis points never is.
pub fn split_fee(fee: u64, protocol_fee_share: u16) -> (r: Result<(u64, u64), ErrorCode>)
    ensures
        bps_of(fee as int, protocol_fee_share as int) <= fee ==> r == Ok::<(u64, u64), ErrorCode>(
            (
                bps_of(fee as int, protocol_fee_share as int) as u64,
                (fee - bps_of(fee as int, protocol_fee_share as int)) as u64,
            ),
        ),
        bps_of(fee as int, protocol_fee_share as int) > fee ==> r == Err::<(u64, u64), ErrorCode>(
            ErrorCode::MathOverflow,
        ),
        r is Ok ==> r.unwrap().0 + r.unwrap().1 == fee,
        protocol_fee_share <= BASIS_POINTS ==> r is Ok,
{
    proof {
        lemma_share_is_part(fee as int, protocol_fee_share as int);
    }
    let protocol_fee = fee_on(fee, protocol_fee_share)?;
    if protocol_fee > fee {
        return Err(ErrorCode::MathOverflow);
    }
    Ok((protocol_fee, fee - protocol_fee))
}

/// The first target of a position that opens at `current_price`;
/// `MathOverflow` when it needs more than 64 bits.
pub fn target_price_at_open(current_price: u64, is_long: bool) -> (r: Result<u64, ErrorCode>)
    ensures
        fits_u64(entry_target(current_price, is_long)) ==> r == Ok::<u64, ErrorCode>(
            entry_target(current_price, is_long) as u64,
        ),
        !fits_u64(entry_target(current_price, is_long)) ==> r == Err::<u64, ErrorCode>(
            ErrorCode::MathOverflow,
        ),
{
    let percent = if is_long {
        LONG_TARGET_PERCENT
    } else {
        SHORT_TARGET_PERCENT
    };
    proof {
        lemma_mul_nonnegative(current_price as int, percent as int);
        lemma_scaled_quotient(current_price * percent, 100);
        assert(current_price * percent * 1_000_000 <= u64::MAX * 110 * 1_000_000)
            by (nonlinear_arith)
            requires
                percent <= 110,
        ;
    }
    let scaled = scaled_mul_div(current_price as u128, percent, 100)?;
    narrow(unscaled(scaled))
}

/// What the trader gets back when a position closes. A loss that, with the
/// closing fee, comes to the collateral or more leaves nothing: the amount
/// is zero, never negative.
///
/// `MathOverflow` when collateral and profit together need more than 64
/// bits.
pub fn amount_to_return(collateral: u64, pnl_result: &PnLResult, closing_fee: u64) -> (r: Result<
    u64,
    ErrorCode,
>)
    ensures
        fits_u64(amount_due(collateral, *pnl_result, closing_fee)) ==> r == Ok::<u64, ErrorCode>(
            amount_due(collateral, *pnl_result, closing_fee) as u64,
        ),
        !fits_u64(amount_due(collateral, *pnl_result, closing_fee)) ==> r == Err::<
            u64,
            ErrorCode,
        >(ErrorCode::MathOverflow),
        !pnl_result.is_profit ==> r is Ok,
        !pnl_result.is_profit && pnl_result.net_pnl + closing_fee >= collateral ==> r == Ok::<
            u64,
            ErrorCode,
        >(0),
{
    if pnl_result.is_profit {
        let profit_after_fees = pnl_result.net_pnl.saturating_sub(closing_fee);
        match collateral.checked_add(profit_after_fees) {
            Some(amount) => Ok(amount),
            None => Err(ErrorCode::MathOverflow),
        }
    } else {
        let total_deduction = pnl_result.net_pnl as u128 + closing_fee as u128;
        if total_deduction >= collateral as u128 {
            Ok(0)
        } else {
            Ok(collateral - total_deduction as u64)
        }
    }
}

/// The terms on which a position opens.
#[derive(Debug, Clone, Copy, PartialEq, Eq)]
pub struct OpeningTerms {
    /// Fee taken from the collateral handed in.
    pub opening_fee: u64,
    /// Part of the opening fee that goes to the protocol.
    pub protocol_fee: u64,
    /// Part of the opening fee that goes to the liquidity providers.
    pub lp_fee: u64,
    /// Collateral left after the fee, locked behind the position.
    pub effective_collateral: u64,
    /// Lent by the pool: the position's value less its collateral.
    pub borrowing_amount: u64,
    /// Size, value, leverage and first target of the position.
    pub params: PositionParams,
}

/// The position that `desired_size` tokens at `desired_entry_price` become
/// at `current_price` with `effective_collateral` behind them.
pub open spec fn position_at_open(
    desired_entry_price: u64,
    desired_size: u64,
    current_price: u64,
    effective_collateral: u64,
    is_long: bool,
    token_decimals: u8,
) -> Result<PositionParams, ErrorCode> {
    let target = entry_target(current_price, is_long);
    if !fits_u64(target) {
        Err(ErrorCode::MathOverflow)
    } else if is_long {
        long_position(
            desired_entry_price,
            desired_size,
            current_price,
            target as u64,
            effective_collateral,
            token_decimals,
        )
    } else {
        short_position(
            desired_entry_price,
            desired_size,
            current_price,
            target as u64,
            effective_collateral,
            token_decimals,
        )
    }
}

/// The verdict on a sized position that is about to open with
/// `effective_collateral` behind it, while the pool can lend
/// `available_liquidity`. The leverage cap comes first: a position over the
/// cap is refused for its leverage, whatever its value and size.
pub open spec fn position_admitted(
    config: Config,
    available_liquidity: u64,
    effective_collateral: u64,
    params: PositionParams,
) -> Result<(), ErrorCode> {
    if params.leverage_bps > config.max_leverage {
        Err(ErrorCode::ExcessiveLeverage)
    } else if position_value_checked(params.position_value) is Err {
        position_value_checked(params.position_value)
    } else if position_size_checked(params.actual_size) is Err {
        position_size_checked(params.actual_size)
    } else if params.position_value < effective_collateral {
        Err(ErrorCode::MathOverflow)
    } else if available_liquidity < params.position_value - effective_collateral {
        Err(ErrorCode::InsufficientLiquidity)
    } else {
        Ok(())
    }
}

/// The terms of `opening_terms`.
pub open spec fn terms_at_open(
    config: Config,
    available_liquidity: u64,
    collateral: u64,
    desired_size: u64,
    desired_entry_price: u64,
    is_long: bool,
    current_price: u64,
    token_decimals: u8,
) -> Result<OpeningTerms, ErrorCode> {
    let opening_fee = bps_of(collateral as int, config.opening_fee as int);
    let effective_collateral = collateral - opening_fee;
    if !fits_u64(opening_fee) {
        Err(ErrorCode::MathOverflow)
    } else if opening_fee == 0 {
        Err(ErrorCode::FeeTooLow)
    } else if opening_fee > collateral {
        Err(ErrorCode::InsufficientCollateralForFees)
    } else if effective_collateral < MIN_COLLATERAL / 2 {
        Err(ErrorCode::EffectiveCollateralTooLow)
    } else {
        match position_at_open(
            desired_entry_price,
            desired_size,
            current_price,
            effective_collateral as u64,
            is_long,
            token_decimals,
        ) {
            Err(e) => Err(e),
            Ok(params) => {
                let protocol_fee = bps_of(opening_fee, config.protocol_fee_share as int);
                if position_admitted(
                    config,
                    available_liquidity,
                    effective_collateral as u64,
                    params,
                ) is Err {
                    Err(
                        position_admitted(
                            config,
                            available_liquidity,
                            effective_collateral as u64,
                            params,
                        )->Err_0,
                    )
                } else if protocol_fee > opening_fee {
                    Err(ErrorCode::MathOverflow)
                } else {
                    Ok(
                        OpeningTerms {
                            opening_fee: opening_fee as u64,
                            protocol_fee: protocol_fee as u64,
                            lp_fee: (opening_fee - protocol_fee) as u64,
                            effective_collateral: effective_collateral as u64,
                            borrowing_amount: (params.position_value - effective_collateral) as u64,
                            params,
                        },
                    )
                }
            },
        }
    }
}

/// Works out the terms on which a position opens at `current_price`.
///
/// The opening fee is `config.opening_fee` basis points of the collateral
/// and may not truncate to zero (`FeeTooLow`); what it leaves of the
/// collateral must be at least half of `MIN_COLLATERAL`
/// (`EffectiveCollateralTooLow`). The position is sized for a first target
/// 10% from the current price. Its leverage must be at most
/// `config.max_leverage` (`ExcessiveLeverage`); then its value and its size
/// must be valid, and the pool must be able to lend what its value exceeds
/// its collateral by (`InsufficientLiquidity`).
pub fn opening_terms(
    config: &Config,
    available_liquidity: u64,
    collateral: u64,
    desired_size: u64,
    desired_entry_price: u64,
    is_long: bool,
    current_price: u64,
    token_decimals: u8,
) -> (r: Result<OpeningTerms, ErrorCode>)
    ensures
        r == terms_at_open(
            *config,
            available_liquidity,
            collateral,
            desired_size,
            desired_entry_price,
            is_long,
            current_price,
            token_decimals,
        ),
        r is Ok ==> r.unwrap().params.leverage_bps <= config.max_leverage,
        r is Ok ==> r.unwrap().protocol_fee + r.unwrap().lp_fee == r.unwrap().opening_fee,
        r is Ok ==> r.unwrap().opening_fee + r.unwrap().effective_collateral == collateral,
        r is Ok && is_long ==> r.unwrap().params.target_price > current_price
            > desired_entry_price,
        r is Ok && !is_long ==> desired_entry_price > current_price
            > r.unwrap().params.target_price,
{
    let opening_fee = fee_on(collateral, config.opening_fee)?;
    if opening_fee == 0 {
        return Err(ErrorCode::FeeTooLow);
    }
    if opening_fee > collateral {
        return Err(ErrorCode::InsufficientCollateralForFees);
    }
    let effective_collateral = collateral - opening_fee;
    if effective_collateral < MIN_COLLATERAL / 2 {
        return Err(ErrorCode::EffectiveCollateralTooLow);
    }
    let target_price = target_price_at_open(current_price, is_long)?;
    let params = if is_long {
        calculate_long_position(
            desired_entry_price,
            desired_size,
            current_price,
            target_price,
            effective_collateral,
            token_decimals,
        )?
    } else {
        calculate_short_position(
            desired_entry_price,
            desired_size,
            current_price,
            target_price,
            effective_collateral,
            token_decimals,
        )?
    };
    if params.leverage_bps > config.max_leverage {
        return Err(ErrorCode::ExcessiveLeverage);
    }
    validate_position_value(params.position_value)?;
    validate_position_size(params.actual_size)?;
    if params.position_value < effective_collateral {
        return Err(ErrorCode::MathOverflow);
    }
    let borrowing_amount = params.position_value - effective_collateral;
    if available_liquidity < borrowing_amount {
        return Err(ErrorCode::InsufficientLiquidity);
    }
    let (protocol_fee, lp_fee) = split_fee(opening_fee, config.protocol_fee_share)?;
    Ok(
        OpeningTerms {
            opening_fee,
            protocol_fee,
            lp_fee,
            effective_collateral,
            borrowing_amount,
            params,
        },
    )
}

/// What closing a position settles.
#[derive(Debug, Clone, Copy, PartialEq, Eq)]
pub struct Settlement {
    /// Fee on the position's value.
    pub closing_fee: u64,
    /// Part of the closing fee that goes to the protocol.
    pub protocol_fee: u64,
    /// Part of the closing fee that goes to the liquidity providers.
    pub lp_fee: u64,
    /// What the position gives back to the pool.
    pub borrowed_amount: u64,
    /// What the trader gets back.
    pub amount_to_return: u64,
}

/// The settlement of `settle`.
pub open spec fn settlement(position: Position, result: PnLResult, config: Config) -> Result<
    Settlement,
    ErrorCode,
> {
    let closing_fee = bps_of(position.position_value as int, config.closing_fee as int);
    let protocol_fee = bps_of(closing_fee, config.protocol_fee_share as int);
    let due = amount_due(position.collateral, result, closing_fee as u64);
    if !fits_u64(closing_fee) || protocol_fee > closing_fee || position.position_value
        < position.collateral || !fits_u64(due) {
        Err(ErrorCode::MathOverflow)
    } else {
        Ok(
            Settlement {
                closing_fee: closing_fee as u64,
                protocol_fee: protocol_fee as u64,
                lp_fee: (closing_fee - protocol_fee) as u64,
                borrowed_amount: (position.position_value - position.collateral) as u64,
                amount_to_return: due as u64,
            },
        )
    }
}

/// Settles a position that closes with the profit or loss `pnl_result`.
///
/// The closing fee is `config.closing_fee` basis points of the position's
/// value, shared like the opening fee. The pool gets back what it lent; the
/// trader gets back `amount_due`.
pub fn settle(position: &Position, pnl_result: &PnLResult, config: &Config) -> (r: Result<
    Settlement,
    ErrorCode,
>)
    ensures
        r == settlement(*position, *pnl_result, *config),
        r is Ok ==> r.unwrap().protocol_fee + r.unwrap().lp_fee == r.unwrap().closing_fee,
        r is Ok ==> r.unwrap().borrowed_amount + position.collateral == position.position_value,
        r is Ok && !pnl_result.is_profit && pnl_result.net_pnl + r.unwrap().closing_fee
            >= position.collateral ==> r.unwrap().amount_to_return == 0,
{
    let closing_fee = fee_on(position.position_value, config.closing_fee)?;
    let (protocol_fee, lp_fee) = split_fee(closing_fee, config.protocol_fee_share)?;
    if position.position_value < position.collateral {
        return Err(ErrorCode::MathOverflow);
    }
    let borrowed_amount = position.position_value - position.collateral;
    let amount_to_return = amount_to_return(position.collateral, pnl_result, closing_fee)?;
    Ok(Settlement { closing_fee, protocol_fee, lp_fee, borrowed_amount, amount_to_return })
}

/// A share of at most the whole is at most the amount.
pub proof fn lemma_share_is_part(amount: int, bps: int)
    requires
        0 <= amount,
        0 <= bps,
    ensures
        0 <= bps_of(amount, bps),
        bps <= BASIS_POINTS ==> bps_of(amount, bps) <= amount,
{
    assert(0 <= amount * bps / 10_000) by (nonlinear_arith)
        requires
            0 <= amount,
            0 <= bps,
    ;
    if bps <= BASIS_POINTS {
        assert(amount * bps / 10_000 <= amount) by (nonlinear_arith)
            requires
                0 <= amount,
                0 <= bps <= 10_000,
        ;
    }
}

} // verus!
