//! A leveraged position: how large it becomes, what funding it owes, what it
//! has won or lost, and how healthy its margin is.
use vstd::prelude::*;
use vstd::arithmetic::div_mod::lemma_div_denominator;
use vstd::arithmetic::mul::lemma_mul_nonnegative;
use crate::math::{
    checked_product, fits_u128, fits_u64, lemma_pow10_step, lemma_scaled_quotient, magnitude,
    narrow, pow10, power_of_ten, scaled_mul_div, unscaled,
};
use crate::state::config::Config;
use crate::{
    ErrorCode, BASIS_POINTS, MAX_COLLATERAL, MAX_POSITION_VALUE, MAX_SAFE_PRICE, MIN_COLLATERAL,
    MIN_POSITION_VALUE, PRECISION, SLOTS_PER_8_HOURS,
};

verus! {

/// One opened trade.
#[derive(Debug, Clone, PartialEq, Eq)]
pub struct Position {
    pub bump: u8,
    pub owner: [u8; 32],
    /// Tick at which the position opened.
    pub entered_at: u64,
    /// Tick at which the position closed; zero while it is open.
    pub closed_at: u64,
    /// Tick up to which funding has been charged.
    pub last_funding_slot: u64,
    /// Funding charged so far, less funding received.
    pub cumulative_funding_paid: u64,
    /// The owner's count of positions when this one opened.
    pub position_id: u64,
    pub is_long: bool,
    pub pair: String,
    pub token_mint: String,
    /// Price at which the position is next rebalanced.
    pub current_target_price: u64,
    /// Token quantity the trader asked for.
    pub desired_size: u64,
    /// Entry price the trader asked for.
    pub desired_entry_price: u64,
    /// Oracle price at which the position opened.
    pub actual_entered_price: u64,
    /// Collateral locked behind the position, after the opening fee.
    pub collateral: u64,
    /// Token quantity the position holds.
    pub actual_size: u64,
    pub current_price: u64,
    /// Value of `actual_size` at the opening price.
    pub position_value: u64,
    /// Value over collateral, in basis points.
    pub leverage: u64,
    pub last_updated: u64,
}

impl Position {
    /// Whether the position has not been closed.
    pub open spec fn is_open(&self) -> bool {
        self.closed_at == 0
    }

    /// Ticks from the last funding update to `current_slot`; zero for a
    /// tick that is not later.
    pub open spec fn slots_since_funding(&self, current_slot: u64) -> u64 {
        floored_sub(current_slot as int, self.last_funding_slot as int) as u64
    }

    /// The funding payment of `update_funding`.
    pub open spec fn funding_at(
        &self,
        current_slot: u64,
        current_price: u64,
        funding_rate_bps: i64,
        token_decimals: u8,
    ) -> Result<FundingPayment, ErrorCode> {
        match funding_payment(
            self.actual_size,
            current_price,
            funding_rate_bps,
            self.slots_since_funding(current_slot),
            token_decimals,
        ) {
            Err(e) => Err(e),
            Ok(funding) => if funding.is_payment && !fits_u64(
                self.cumulative_funding_paid + funding.funding_amount,
            ) {
                Err(ErrorCode::MathOverflow)
            } else {
                Ok(funding)
            },
        }
    }

    /// The position after the funding `funding` was settled at
    /// `current_slot`: a payment is added to the funding paid, a receipt is
    /// taken off it as far as it goes.
    pub open spec fn with_funding(&self, current_slot: u64, funding: FundingPayment) -> Position {
        Position {
            last_funding_slot: current_slot,
            cumulative_funding_paid: self.funding_paid_after(funding) as u64,
            ..*self
        }
    }

    /// The funding paid so far once `funding` is settled: a payment is
    /// added to it, a receipt is taken off it as far as it goes.
    pub open spec fn funding_paid_after(&self, funding: FundingPayment) -> int {
        if funding.is_payment {
            self.cumulative_funding_paid + funding.funding_amount
        } else {
            floored_sub(self.cumulative_funding_paid as int, funding.funding_amount as int)
        }
    }

    /// Works out the funding for the ticks since the last update, and the
    /// funding paid so far once it is settled, without changing the
    /// position.
    pub fn funding_settled(
        &self,
        current_slot: u64,
        current_price: u64,
        funding_rate_bps: i64,
        token_decimals: u8,
    ) -> (r: Result<(FundingPayment, u64), ErrorCode>)
        ensures
            match self.funding_at(current_slot, current_price, funding_rate_bps, token_decimals) {
                Ok(funding) => r == Ok::<(FundingPayment, u64), ErrorCode>(
                    (funding, self.funding_paid_after(funding) as u64),
                ) && fits_u64(self.funding_paid_after(funding)),
                Err(e) => r == Err::<(FundingPayment, u64), ErrorCode>(e),
            },
    {
        let slots_elapsed = current_slot.saturating_sub(self.last_funding_slot);
        let funding = calculate_funding_payment(
            self.actual_size,
            current_price,
            funding_rate_bps,
            slots_elapsed,
            token_decimals,
        )?;
        let paid = if funding.is_payment {
            match self.cumulative_funding_paid.checked_add(funding.funding_amount) {
                Some(p) => p,
                None => {
                    return Err(ErrorCode::MathOverflow);
                },
            }
        } else {
            self.cumulative_funding_paid.saturating_sub(funding.funding_amount)
        };
        Ok((funding, paid))
    }

    /// Settles the funding for the ticks since the last update and moves
    /// the update to `current_slot`.
    ///
    /// On an error the position is left as it was. A second call with the
    /// same `current_slot` finds no tick elapsed and charges nothing. A
    /// `current_slot` before the last update charges nothing either, but it
    /// moves the update back, so that a later call charges the ticks in
    /// between once more: callers hand in ticks that do not go back.
    pub fn update_funding(
        &mut self,
        current_slot: u64,
        current_price: u64,
        funding_rate_bps: i64,
        token_decimals: u8,
    ) -> (r: Result<FundingPayment, ErrorCode>)
        ensures
            r == old(self).funding_at(current_slot, current_price, funding_rate_bps, token_decimals),
            r is Ok ==> *final(self) == old(self).with_funding(current_slot, r.unwrap()),
            r is Err ==> *final(self) == *old(self),
    {
        let (funding, paid) = self.funding_settled(
            current_slot,
            current_price,
            funding_rate_bps,
            token_decimals,
        )?;
        self.last_funding_slot = current_slot;
        self.cumulative_funding_paid = paid;
        Ok(funding)
    }
}

/// Funding is charged once per tick: right after an update at
/// `current_slot`, another one at the same tick charges nothing, whatever
/// the price and the rate, and leaves the position as it is.
pub proof fn lemma_funding_once_per_tick(
    position: Position,
    current_slot: u64,
    funding: FundingPayment,
    current_price: u64,
    funding_rate_bps: i64,
    token_decimals: u8,
)
    requires
        fits_u64(position.funding_paid_after(funding)),
    ensures
        ({
            let funded = position.with_funding(current_slot, funding);
            let again = funded.funding_at(
                current_slot,
                current_price,
                funding_rate_bps,
                token_decimals,
            );
            &&& again == Ok::<FundingPayment, ErrorCode>(
                FundingPayment { funding_amount: 0, is_payment: funding_rate_bps > 0 },
            )
            &&& funded.with_funding(current_slot, again.unwrap()) == funded
        }),
{
}

/// Funding for one stretch of time.
#[derive(Debug, Clone, Copy, PartialEq, Eq)]
pub struct FundingPayment {
    pub funding_amount: u64,
    /// Whether the position pays; otherwise it receives.
    pub is_payment: bool,
}

/// The size of a position and what follows from it.
#[derive(Debug, Clone, Copy, PartialEq, Eq)]
pub struct PositionParams {
    pub actual_size: u64,
    pub leverage_bps: u64,
    pub position_value: u64,
    pub target_price: u64,
}

/// What a rebalance changes.
#[derive(Debug, Clone, Copy, PartialEq, Eq)]
pub struct RebalanceResult {
    pub should_rebalance: bool,
    pub new_actual_size: u64,
    pub new_target_price: u64,
    pub new_leverage_bps: u64,
    pub profit_realized: u64,
    pub excess_to_insurance: u64,
}

/// Profit or loss of a position.
#[derive(Debug, Clone, Copy, PartialEq, Eq)]
pub struct PnLResult {
    /// Size of the change in value, before funding.
    pub gross_pnl: u64,
    /// Size of the profit or loss after funding.
    pub net_pnl: u64,
    /// Whether `net_pnl` is a profit; a loss otherwise.
    pub is_profit: bool,
}

/// USD value of `size` token units at `price`, truncated.
pub open spec fn token_value(size: int, price: int, token_decimals: u8) -> int {
    size * price / pow10(token_decimals as nat)
}

/// The same value with `PRECISION` more digits.
pub open spec fn token_value_scaled(size: int, price: int, token_decimals: u8) -> int {
    size * price * PRECISION / pow10(token_decimals as nat)
}

/// The size of `v` without its sign.
pub open spec fn abs(v: int) -> int {
    if v >= 0 {
        v
    } else {
        -v
    }
}

/// `a - b`, or zero where `b` is the larger.
pub open spec fn floored_sub(a: int, b: int) -> int {
    if a >= b {
        a - b
    } else {
        0
    }
}

/// Funding on `actual_size` tokens at `current_price` for `slots_elapsed`
/// ticks at `rate` basis points per eight hours. The elapsed time is taken as
/// a fraction of a period with `PRECISION` digits, so part of a period is
/// charged in part.
pub open spec fn funding_due(
    actual_size: u64,
    current_price: u64,
    rate: int,
    slots_elapsed: u64,
    token_decimals: u8,
) -> int {
    let notional = token_value_scaled(actual_size as int, current_price as int, token_decimals);
    let periods = slots_elapsed * PRECISION / (SLOTS_PER_8_HOURS as int);
    notional * rate * periods / (BASIS_POINTS * PRECISION * PRECISION)
}

/// The funding payment of `calculate_funding_payment`.
pub open spec fn funding_payment(
    actual_size: u64,
    current_price: u64,
    funding_rate_bps: i64,
    slots_elapsed: u64,
    token_decimals: u8,
) -> Result<FundingPayment, ErrorCode> {
    let is_payment = funding_rate_bps > 0;
    if actual_size == 0 || current_price == 0 || funding_rate_bps == 0 || slots_elapsed == 0 {
        Ok(FundingPayment { funding_amount: 0, is_payment })
    } else {
        let rate = abs(funding_rate_bps as int);
        let notional = token_value_scaled(actual_size as int, current_price as int, token_decimals);
        let periods = slots_elapsed * PRECISION / (SLOTS_PER_8_HOURS as int);
        let due = funding_due(actual_size, current_price, rate, slots_elapsed, token_decimals);
        if !fits_u128(pow10(token_decimals as nat)) || !fits_u128(
            actual_size * current_price * PRECISION,
        ) || !fits_u128(notional * rate) || !fits_u128(notional * rate * periods) || !fits_u64(
            due,
        ) {
            Err(ErrorCode::MathOverflow)
        } else {
            Ok(FundingPayment { funding_amount: due as u64, is_payment })
        }
    }
}

/// Funding that a position of `actual_size` tokens owes or is owed for
/// `slots_elapsed` ticks.
///
/// Zero when the size, the price, the rate or the time is zero. A positive
/// rate makes the position pay, a negative one makes it receive.
pub fn calculate_funding_payment(
    actual_size: u64,
    current_price: u64,
    funding_rate_bps: i64,
    slots_elapsed: u64,
    token_decimals: u8,
) -> (r: Result<FundingPayment, ErrorCode>)
    ensures
        r == funding_payment(
            actual_size,
            current_price,
            funding_rate_bps,
            slots_elapsed,
            token_decimals,
        ),
{
    if actual_size == 0 || current_price == 0 || funding_rate_bps == 0 || slots_elapsed == 0 {
        return Ok(FundingPayment { funding_amount: 0, is_payment: funding_rate_bps > 0 });
    }
    let token_divisor = power_of_ten(token_decimals as u32)?;
    proof {
        lemma_pow10_step(token_decimals as nat);
    }
    let notional_value_scaled = scaled_mul_div(
        actual_size as u128,
        current_price as u128,
        token_divisor,
    )?;
    assert(slots_elapsed * PRECISION <= u64::MAX * PRECISION) by (nonlinear_arith);
    let funding_periods_scaled = slots_elapsed as u128 * PRECISION / (SLOTS_PER_8_HOURS as u128);
    let funding_rate_abs = magnitude(funding_rate_bps);
    let with_rate = checked_product(notional_value_scaled, funding_rate_abs as u128)?;
    let funding_amount_scaled = checked_product(with_rate, funding_periods_scaled)?;
    let divisor = BASIS_POINTS * PRECISION * PRECISION;
    let funding_amount = narrow(funding_amount_scaled / divisor)?;
    Ok(FundingPayment { funding_amount, is_payment: funding_rate_bps > 0 })
}

/// Size, value and leverage of a position of which the price ranges are
/// known: `profit_range` is the distance from the desired entry price to the
/// target, `price_movement` the distance from the current price to the
/// target.
///
/// The position is sized so that its profit at the target equals the profit
/// that `desired_size` tokens bought at the desired entry price would make:
/// `actual_size * price_movement = desired_size * profit_range`. Its leverage
/// is its value over the collateral, taken from the value with `PRECISION`
/// more digits, so that nothing is divided before it is multiplied.
pub open spec fn sized_position(
    desired_size: u64,
    profit_range: int,
    price_movement: int,
    current_price: u64,
    target_price: u64,
    collateral: u64,
    token_decimals: u8,
) -> Result<PositionParams, ErrorCode> {
    let actual_size = desired_size * profit_range / price_movement;
    let value_scaled = token_value_scaled(actual_size, current_price as int, token_decimals);
    let position_value = token_value(actual_size, current_price as int, token_decimals);
    let leverage_bps = value_scaled * BASIS_POINTS / (collateral * PRECISION);
    if !fits_u128(desired_size * profit_range * PRECISION) || !fits_u64(actual_size) || !fits_u128(
        pow10(token_decimals as nat),
    ) || !fits_u128(actual_size * current_price * PRECISION) || !fits_u64(position_value)
        || !fits_u128(value_scaled * BASIS_POINTS) || !fits_u64(leverage_bps) {
        Err(ErrorCode::MathOverflow)
    } else {
        Ok(
            PositionParams {
                actual_size: actual_size as u64,
                leverage_bps: leverage_bps as u64,
                position_value: position_value as u64,
                target_price,
            },
        )
    }
}

/// The long position of `calculate_long_position`.
pub open spec fn long_position(
    desired_entry_price: u64,
    desired_size: u64,
    current_price: u64,
    target_price: u64,
    collateral: u64,
    token_decimals: u8,
) -> Result<PositionParams, ErrorCode> {
    if current_price <= desired_entry_price {
        Err(ErrorCode::InvalidPriceForLong)
    } else if target_price <= current_price {
        Err(ErrorCode::InvalidTargetPrice)
    } else if desired_size == 0 || collateral == 0 {
        Err(ErrorCode::InvalidInput)
    } else {
        sized_position(
            desired_size,
            target_price - desired_entry_price,
            target_price - current_price,
            current_price,
            target_price,
            collateral,
            token_decimals,
        )
    }
}

/// The short position of `calculate_short_position`.
pub open spec fn short_position(
    desired_entry_price: u64,
    desired_size: u64,
    current_price: u64,
    target_price: u64,
    collateral: u64,
    token_decimals: u8,
) -> Result<PositionParams, ErrorCode> {
    if current_price >= desired_entry_price {
        Err(ErrorCode::InvalidPriceForShort)
    } else if target_price >= desired_entry_price {
        Err(ErrorCode::InvalidTargetPrice)
    } else if desired_size == 0 || collateral == 0 {
        Err(ErrorCode::InvalidInput)
    } else if target_price > current_price {
        Err(ErrorCode::MathOverflow)
    } else if target_price == current_price {
        Err(ErrorCode::InvalidTargetPrice)
    } else {
        sized_position(
            desired_size,
            desired_entry_price - target_price,
            current_price - target_price,
            current_price,
            target_price,
            collateral,
            token_decimals,
        )
    }
}

/// Sizes a position from its two price ranges.
fn size_position(
    desired_size: u64,
    profit_range: u64,
    price_movement: u64,
    current_price: u64,
    target_price: u64,
    collateral: u64,
    token_decimals: u8,
) -> (r: Result<PositionParams, ErrorCode>)
    requires
        price_movement > 0,
        collateral > 0,
    ensures
        r == sized_position(
            desired_size,
            profit_range as int,
            price_movement as int,
            current_price,
            target_price,
            collateral,
            token_decimals,
        ),
{
    proof {
        lemma_mul_nonnegative(desired_size as int, profit_range as int);
        lemma_scaled_quotient(desired_size * profit_range, price_movement as int);
        lemma_pow10_step(token_decimals as nat);
    }
    let actual_size_scaled = scaled_mul_div(
        desired_size as u128,
        profit_range as u128,
        price_movement as u128,
    )?;
    let actual_size = narrow(unscaled(actual_size_scaled))?;
    let token_divisor = power_of_ten(token_decimals as u32)?;
    proof {
        lemma_mul_nonnegative(actual_size as int, current_price as int);
        lemma_scaled_quotient(actual_size * current_price, token_divisor as int);
    }
    let position_value_scaled = scaled_mul_div(
        actual_size as u128,
        current_price as u128,
        token_divisor,
    )?;
    let position_value = narrow(unscaled(position_value_scaled))?;
    let leverage_scaled = checked_product(position_value_scaled, BASIS_POINTS)?;
    proof {
        lemma_div_denominator(leverage_scaled as int, collateral as int, PRECISION as int);
    }
    let leverage_bps = narrow(leverage_scaled / (collateral as u128) / PRECISION)?;
    Ok(PositionParams { actual_size, leverage_bps, position_value, target_price })
}

/// Sizes a long position: one that profits when the price rises from
/// `current_price` to `target_price`.
///
/// The current price must lie above the desired entry price
/// (`InvalidPriceForLong`) and below the target (`InvalidTargetPrice`), and
/// neither the desired size nor the collateral may be zero (`InvalidInput`).
pub fn calculate_long_position(
    desired_entry_price: u64,
    desired_size: u64,
    current_price: u64,
    target_price: u64,
    collateral: u64,
    token_decimals: u8,
) -> (r: Result<PositionParams, ErrorCode>)
    ensures
        r == long_position(
            desired_entry_price,
            desired_size,
            current_price,
            target_price,
            collateral,
            token_decimals,
        ),
        r is Ok ==> target_price > current_price > desired_entry_price,
{
    if current_price <= desired_entry_price {
        return Err(ErrorCode::InvalidPriceForLong);
    }
    if target_price <= current_price {
        return Err(ErrorCode::InvalidTargetPrice);
    }
    if desired_size == 0 || collateral == 0 {
        return Err(ErrorCode::InvalidInput);
    }
    let target_profit_range = target_price - desired_entry_price;
    let price_movement = target_price - current_price;
    size_position(
        desired_size,
        target_profit_range,
        price_movement,
        current_price,
        target_price,
        collateral,
        token_decimals,
    )
}

/// Sizes a short position: one that profits when the price falls from
/// `current_price` to `target_price`.
///
/// The current price must lie below the desired entry price
/// (`InvalidPriceForShort`), the target below the desired entry price and
/// not at the current price (`InvalidTargetPrice`), and neither the desired
/// size nor the collateral may be zero (`InvalidInput`). A target above the
/// current price makes the price movement underflow (`MathOverflow`).
pub fn calculate_short_position(
    desired_entry_price: u64,
    desired_size: u64,
    current_price: u64,
    target_price: u64,
    collateral: u64,
    token_decimals: u8,
) -> (r: Result<PositionParams, ErrorCode>)
    ensures
        r == short_position(
            desired_entry_price,
            desired_size,
            current_price,
            target_price,
            collateral,
            token_decimals,
        ),
        r is Ok ==> desired_entry_price > current_price > target_price,
{
    if current_price >= desired_entry_price {
        return Err(ErrorCode::InvalidPriceForShort);
    }
    if target_price >= desired_entry_price {
        return Err(ErrorCode::InvalidTargetPrice);
    }
    if desired_size == 0 || collateral == 0 {
        return Err(ErrorCode::InvalidInput);
    }
    let target_profit_range = desired_entry_price - target_price;
    if target_price > current_price {
        return Err(ErrorCode::MathOverflow);
    }
    let price_movement = current_price - target_price;
    if price_movement == 0 {
        return Err(ErrorCode::InvalidTargetPrice);
    }
    size_position(
        desired_size,
        target_profit_range,
        price_movement,
        current_price,
        target_price,
        collateral,
        token_decimals,
    )
}

/// Whether the price has come to the position's target: at or above it for
/// a long position, at or below it for a short one.
pub open spec fn target_reached(position: Position, current_price: u64) -> bool {
    if position.is_long {
        current_price >= position.current_target_price
    } else {
        current_price <= position.current_target_price
    }
}

/// Profit of the position as it stands: the value of `actual_size` now
/// against its value at the opening price, zero where it has lost.
pub open spec fn leveraged_profit(position: Position, current_price: u64, token_decimals: u8) -> int {
    let current_value = token_value(
        position.actual_size as int,
        current_price as int,
        token_decimals,
    );
    let entry_value = token_value(
        position.actual_size as int,
        position.actual_entered_price as int,
        token_decimals,
    );
    if position.is_long {
        floored_sub(current_value, entry_value)
    } else {
        floored_sub(entry_value, current_value)
    }
}

/// Profit that the trader expects: that of `desired_size` tokens entered at
/// the desired entry price, zero where the price has gone the other way.
pub open spec fn expected_profit(position: Position, current_price: u64, token_decimals: u8) -> int {
    let price_diff = if position.is_long {
        floored_sub(current_price as int, position.desired_entry_price as int)
    } else {
        floored_sub(position.desired_entry_price as int, current_price as int)
    };
    token_value(position.desired_size as int, price_diff, token_decimals)
}

/// Distance from the current price to the next target:
/// `target_percentage_bps` basis points of the price, truncated.
pub open spec fn target_distance(current_price: u64, target_percentage_bps: u64) -> int {
    current_price * target_percentage_bps / (BASIS_POINTS as int)
}

/// The next target: above the current price for a long position, below it
/// for a short one.
pub open spec fn next_target_price(
    is_long: bool,
    current_price: u64,
    target_percentage_bps: u64,
) -> int {
    if is_long {
        current_price + target_distance(current_price, target_percentage_bps)
    } else {
        current_price - target_distance(current_price, target_percentage_bps)
    }
}

/// The result that leaves a position as it is.
pub open spec fn no_rebalance(position: Position) -> RebalanceResult {
    RebalanceResult {
        should_rebalance: false,
        new_actual_size: position.actual_size,
        new_target_price: position.current_target_price,
        new_leverage_bps: 0,
        profit_realized: 0,
        excess_to_insurance: 0,
    }
}

/// The rebalance of `calculate_rebalance_with_new_target`.
pub open spec fn rebalance(
    position: Position,
    current_price: u64,
    target_percentage_bps: u64,
    token_decimals: u8,
) -> Result<RebalanceResult, ErrorCode> {
    if !target_reached(position, current_price) || position.actual_size == 0 || current_price
        == 0 {
        Ok(no_rebalance(position))
    } else {
        let actual_profit = leveraged_profit(position, current_price, token_decimals);
        let virtual_profit = expected_profit(position, current_price, token_decimals);
        let new_target = next_target_price(position.is_long, current_price, target_percentage_bps);
        if !fits_u128(pow10(token_decimals as nat)) || !fits_u64(actual_profit) || !fits_u64(
            virtual_profit,
        ) || !fits_u128(current_price * target_percentage_bps * PRECISION) || !fits_u64(
            target_distance(current_price, target_percentage_bps),
        ) || !fits_u64(new_target) {
            Err(ErrorCode::MathOverflow)
        } else {
            let sized = if position.is_long {
                long_position(
                    position.desired_entry_price,
                    position.desired_size,
                    current_price,
                    new_target as u64,
                    position.collateral,
                    token_decimals,
                )
            } else {
                short_position(
                    position.desired_entry_price,
                    position.desired_size,
                    current_price,
                    new_target as u64,
                    position.collateral,
                    token_decimals,
                )
            };
            match sized {
                Err(e) => Err(e),
                Ok(params) => Ok(
                    RebalanceResult {
                        should_rebalance: true,
                        new_actual_size: params.actual_size,
                        new_target_price: new_target as u64,
                        new_leverage_bps: params.leverage_bps,
                        profit_realized: actual_profit as u64,
                        excess_to_insurance: floored_sub(actual_profit, virtual_profit) as u64,
                    },
                ),
            }
        }
    }
}

/// USD value of `size` token units at `price`, truncated, in 128 bits.
fn value_of(size: u64, price: u64, token_divisor: u128) -> (r: u128)
    requires
        token_divisor > 0,
    ensures
        r == size * price / (token_divisor as int),
{
    assert(size * price <= u64::MAX * u64::MAX) by (nonlinear_arith);
    size as u128 * (price as u128) / token_divisor
}

/// Decides whether the price has reached the position's target and, when it
/// has, sizes the position anew for the next target.
///
/// The new target lies `target_percentage_bps` basis points from the current
/// price. `profit_realized` is the profit of the position as it stands;
/// what it exceeds the trader's expected profit by goes to the insurance
/// reserve.
pub fn calculate_rebalance_with_new_target(
    position: Position,
    current_price: u64,
    target_percentage_bps: u64,
    token_decimals: u8,
) -> (r: Result<RebalanceResult, ErrorCode>)
    ensures
        r == rebalance(position, current_price, target_percentage_bps, token_decimals),
{
    let is_long = position.is_long;
    let reached = if is_long {
        current_price >= position.current_target_price
    } else {
        current_price <= position.current_target_price
    };
    if !reached || position.actual_size == 0 || current_price == 0 {
        return Ok(
            RebalanceResult {
                should_rebalance: false,
                new_actual_size: position.actual_size,
                new_target_price: position.current_target_price,
                new_leverage_bps: 0,
                profit_realized: 0,
                excess_to_insurance: 0,
            },
        );
    }
    let token_divisor = power_of_ten(token_decimals as u32)?;
    proof {
        lemma_pow10_step(token_decimals as nat);
    }
    let current_value = value_of(position.actual_size, current_price, token_divisor);
    let entry_value = value_of(position.actual_size, position.actual_entered_price, token_divisor);
    let actual_profit = if is_long {
        narrow(if current_value >= entry_value { current_value - entry_value } else { 0 })?
    } else {
        narrow(if entry_value >= current_value { entry_value - current_value } else { 0 })?
    };
    let price_diff = if is_long {
        current_price.saturating_sub(position.desired_entry_price)
    } else {
        position.desired_entry_price.saturating_sub(current_price)
    };
    let virtual_profit = narrow(value_of(position.desired_size, price_diff, token_divisor))?;
    let excess_to_insurance = actual_profit.saturating_sub(virtual_profit);
    proof {
        lemma_mul_nonnegative(current_price as int, target_percentage_bps as int);
        lemma_scaled_quotient(current_price * target_percentage_bps, BASIS_POINTS as int);
    }
    let price_change_scaled = scaled_mul_div(
        current_price as u128,
        target_percentage_bps as u128,
        BASIS_POINTS,
    )?;
    let price_change = narrow(unscaled(price_change_scaled))?;
    let new_target_price = if is_long {
        match current_price.checked_add(price_change) {
            Some(t) => t,
            None => {
                return Err(ErrorCode::MathOverflow);
            },
        }
    } else {
        match current_price.checked_sub(price_change) {
            Some(t) => t,
            None => {
                return Err(ErrorCode::MathOverflow);
            },
        }
    };
    let new_params = if is_long {
        calculate_long_position(
            position.desired_entry_price,
            position.desired_size,
            current_price,
            new_target_price,
            position.collateral,
            token_decimals,
        )?
    } else {
        calculate_short_position(
            position.desired_entry_price,
            position.desired_size,
            current_price,
            new_target_price,
            position.collateral,
            token_decimals,
        )?
    };
    Ok(
        RebalanceResult {
            should_rebalance: true,
            new_actual_size: new_params.actual_size,
            new_target_price,
            new_leverage_bps: new_params.leverage_bps,
            profit_realized: actual_profit,
            excess_to_insurance,
        },
    )
}

/// Profit or loss of a position at `current_price` that has paid
/// `funding_paid` in funding.
pub open spec fn pnl_after_funding(
    position: Position,
    funding_paid: u64,
    current_price: u64,
    token_decimals: u8,
) -> Result<PnLResult, ErrorCode> {
    if position.actual_size == 0 {
        Ok(PnLResult { gross_pnl: 0, net_pnl: 0, is_profit: false })
    } else {
        let current_value = token_value(
            position.actual_size as int,
            current_price as int,
            token_decimals,
        );
        let entry_value = token_value(
            position.actual_size as int,
            position.actual_entered_price as int,
            token_decimals,
        );
        let gained = if position.is_long {
            current_value >= entry_value
        } else {
            entry_value >= current_value
        };
        let gross = abs(current_value - entry_value);
        let net = if gained {
            floored_sub(gross, funding_paid as int)
        } else {
            gross + funding_paid
        };
        if !fits_u128(pow10(token_decimals as nat)) || !fits_u64(gross) || !fits_u64(net) {
            Err(ErrorCode::MathOverflow)
        } else {
            Ok(PnLResult { gross_pnl: gross as u64, net_pnl: net as u64, is_profit: gained && net > 0 })
        }
    }
}

/// The profit or loss of `calculate_pnl`.
pub open spec fn pnl(position: Position, current_price: u64, token_decimals: u8) -> Result<
    PnLResult,
    ErrorCode,
> {
    pnl_after_funding(position, position.cumulative_funding_paid, current_price, token_decimals)
}

/// Profit or loss of a position at `current_price`, with `funding_paid` in
/// place of the funding that the position records.
pub fn calculate_pnl_after_funding(
    position: &Position,
    funding_paid: u64,
    current_price: u64,
    token_decimals: u8,
) -> (r: Result<PnLResult, ErrorCode>)
    ensures
        r == pnl_after_funding(*position, funding_paid, current_price, token_decimals),
{
    if position.actual_size == 0 {
        return Ok(PnLResult { gross_pnl: 0, net_pnl: 0, is_profit: false });
    }
    let token_divisor = power_of_ten(token_decimals as u32)?;
    proof {
        lemma_pow10_step(token_decimals as nat);
    }
    let current_value = value_of(position.actual_size, current_price, token_divisor);
    let entry_value = value_of(position.actual_size, position.actual_entered_price, token_divisor);
    let (gross_pnl_wide, gained) = if position.is_long {
        if current_value >= entry_value {
            (current_value - entry_value, true)
        } else {
            (entry_value - current_value, false)
        }
    } else {
        if entry_value >= current_value {
            (entry_value - current_value, true)
        } else {
            (current_value - entry_value, false)
        }
    };
    let gross_pnl = narrow(gross_pnl_wide)?;
    let net_pnl = if gained {
        gross_pnl.saturating_sub(funding_paid)
    } else {
        match gross_pnl.checked_add(funding_paid) {
            Some(n) => n,
            None => {
                return Err(ErrorCode::MathOverflow);
            },
        }
    };
    Ok(PnLResult { gross_pnl, net_pnl, is_profit: gained && net_pnl > 0 })
}

/// Profit or loss of a position at `current_price`.
///
/// The gross figure is the change in value of `actual_size` since the
/// position opened; a long position gains when the price rises, a short one
/// when it falls. Funding paid so far is taken from a gain, which it cannot
/// turn into a loss, and added to a loss. The result is a profit only when
/// something is left of the gain.
pub fn calculate_pnl(position: &Position, current_price: u64, token_decimals: u8) -> (r: Result<
    PnLResult,
    ErrorCode,
>)
    ensures
        r == pnl(*position, current_price, token_decimals),
{
    calculate_pnl_after_funding(
        position,
        position.cumulative_funding_paid,
        current_price,
        token_decimals,
    )
}

/// What the position is worth to its owner: the collateral with the profit
/// added or the loss taken off, never below zero.
pub open spec fn equity(position: Position, result: PnLResult) -> int {
    if result.is_profit {
        position.collateral + result.net_pnl
    } else {
        floored_sub(position.collateral as int, result.net_pnl as int)
    }
}

/// Margin that the position must keep at `current_price`, with `PRECISION`
/// more digits: `maintainance_margin` basis points of its value.
pub open spec fn required_margin_scaled(
    position: Position,
    current_price: u64,
    config: Config,
    token_decimals: u8,
) -> int {
    token_value_scaled(position.actual_size as int, current_price as int, token_decimals)
        * config.maintainance_margin / (BASIS_POINTS as int)
}

/// The health ratio of `calculate_health_ratio`.
pub open spec fn health_ratio(
    position: Position,
    current_price: u64,
    config: Config,
    token_decimals: u8,
) -> Result<u64, ErrorCode> {
    if position.actual_size == 0 || current_price == 0 {
        Ok(u64::MAX)
    } else {
        match pnl(position, current_price, token_decimals) {
            Err(e) => Err(e),
            Ok(result) => {
                let equity = equity(position, result);
                let value_scaled = token_value_scaled(
                    position.actual_size as int,
                    current_price as int,
                    token_decimals,
                );
                let margin_scaled = required_margin_scaled(
                    position,
                    current_price,
                    config,
                    token_decimals,
                );
                let ratio = equity * PRECISION * BASIS_POINTS / margin_scaled;
                if equity == 0 {
                    Ok(0)
                } else if !fits_u128(position.actual_size * current_price * PRECISION)
                    || !fits_u128(value_scaled * config.maintainance_margin) {
                    Err(ErrorCode::MathOverflow)
                } else if margin_scaled / (PRECISION as int) == 0 {
                    Ok(u64::MAX)
                } else if !fits_u64(ratio) {
                    Err(ErrorCode::MathOverflow)
                } else {
                    Ok(ratio as u64)
                }
            },
        }
    }
}

/// Health of a position's margin at `current_price`, in basis points: its
/// equity over the margin it must keep. Below 10000 the position is due for
/// liquidation.
///
/// `u64::MAX` for a position without size or a price of zero, and where the
/// required margin truncates to zero; zero where no equity is left.
pub fn calculate_health_ratio(
    position: &Position,
    current_price: u64,
    config: &Config,
    token_decimals: u8,
) -> (r: Result<u64, ErrorCode>)
    ensures
        r == health_ratio(*position, current_price, *config, token_decimals),
{
    if position.actual_size == 0 || current_price == 0 {
        return Ok(u64::MAX);
    }
    let pnl_result = calculate_pnl(position, current_price, token_decimals)?;
    let equity: u128 = if pnl_result.is_profit {
        position.collateral as u128 + pnl_result.net_pnl as u128
    } else {
        (position.collateral as u128).saturating_sub(pnl_result.net_pnl as u128)
    };
    if equity == 0 {
        return Ok(0);
    }
    let token_divisor = power_of_ten(token_decimals as u32)?;
    proof {
        lemma_pow10_step(token_decimals as nat);
    }
    let position_value_scaled = scaled_mul_div(
        position.actual_size as u128,
        current_price as u128,
        token_divisor,
    )?;
    let with_margin = checked_product(position_value_scaled, config.maintainance_margin as u128)?;
    let required_margin_scaled = with_margin / BASIS_POINTS;
    let required_margin = unscaled(required_margin_scaled);
    if required_margin == 0 {
        return Ok(u64::MAX);
    }
    let equity_scaled = equity * PRECISION * BASIS_POINTS;
    narrow(equity_scaled / required_margin_scaled)
}

/// The verdict of `validate_position_value`.
pub open spec fn position_value_checked(position_value: u64) -> Result<(), ErrorCode> {
    if position_value < MIN_POSITION_VALUE {
        Err(ErrorCode::PositionValueTooLow)
    } else if position_value > MAX_POSITION_VALUE {
        Err(ErrorCode::PositionValueTooHigh)
    } else {
        Ok(())
    }
}

/// The verdict of `validate_collateral`.
pub open spec fn collateral_checked(collateral: u64) -> Result<(), ErrorCode> {
    if collateral < MIN_COLLATERAL {
        Err(ErrorCode::CollateralTooLow)
    } else if collateral > MAX_COLLATERAL {
        Err(ErrorCode::CollateralTooHigh)
    } else {
        Ok(())
    }
}

/// The verdict of `validate_price`.
pub open spec fn price_checked(price: u64) -> Result<(), ErrorCode> {
    if price == 0 {
        Err(ErrorCode::InvalidPrice)
    } else if price > MAX_SAFE_PRICE {
        Err(ErrorCode::PriceTooHigh)
    } else {
        Ok(())
    }
}

/// The verdict of `validate_position_size`.
pub open spec fn position_size_checked(size: u64) -> Result<(), ErrorCode> {
    if size == 0 {
        Err(ErrorCode::InvalidPositionSize)
    } else {
        Ok(())
    }
}

/// Accepts a position value from `MIN_POSITION_VALUE` to
/// `MAX_POSITION_VALUE`.
pub fn validate_position_value(position_value: u64) -> (r: Result<(), ErrorCode>)
    ensures
        r == position_value_checked(position_value),
{
    if position_value < MIN_POSITION_VALUE {
        return Err(ErrorCode::PositionValueTooLow);
    }
    if position_value > MAX_POSITION_VALUE {
        return Err(ErrorCode::PositionValueTooHigh);
    }
    Ok(())
}

/// Accepts a collateral from `MIN_COLLATERAL` to `MAX_COLLATERAL`.
pub fn validate_collateral(collateral: u64) -> (r: Result<(), ErrorCode>)
    ensures
        r == collateral_checked(collateral),
{
    if collateral < MIN_COLLATERAL {
        return Err(ErrorCode::CollateralTooLow);
    }
    if collateral > MAX_COLLATERAL {
        return Err(ErrorCode::CollateralTooHigh);
    }
    Ok(())
}

/// Accepts a price that is not zero and at most `MAX_SAFE_PRICE`.
pub fn validate_price(price: u64) -> (r: Result<(), ErrorCode>)
    ensures
        r == price_checked(price),
{
    if price == 0 {
        return Err(ErrorCode::InvalidPrice);
    }
    if price > MAX_SAFE_PRICE {
        return Err(ErrorCode::PriceTooHigh);
    }
    Ok(())
}

/// Accepts a position size that is not zero.
pub fn validate_position_size(size: u64) -> (r: Result<(), ErrorCode>)
    ensures
        r == position_size_checked(size),
{
    if size == 0 {
        return Err(ErrorCode::InvalidPositionSize);
    }
    Ok(())
}

} // verus!
