//! The operations of the venue. Each one works on the records handed to it
//! and on nothing else, and either succeeds as a whole or fails and leaves
//! every record as it was.
use vstd::prelude::*;
use vstd::utf8::encode_utf8;
use crate::math::fits_u64;
use crate::price_update::{get_normalized_price, normalized_price, Clock, PriceUpdate};
use crate::settlement::{
    bps_of, lemma_share_is_part, opening_terms, position_at_open, settle, settlement,
    terms_at_open, OpeningTerms, Settlement,
};
use crate::state::config::Config;
use crate::state::market::Market;
use crate::state::position::{
    calculate_pnl_after_funding, collateral_checked, floored_sub, pnl, position_size_checked,
    price_checked, validate_collateral, validate_position_size,
    validate_price, FundingPayment, PnLResult, Position,
};
use crate::state::trader::{Trader, TraderPoolDetail};
use crate::state::vault::Vault;
use crate::{ErrorCode, BASIS_POINTS, MAX_POSITION_VALUE, MIN_COLLATERAL};

verus! {

/// Balance of a trader who has just registered: $100,000.
pub const STARTING_BALANCE: u64 = 100_000_000_000;

/// Balance added by one claim: $10,000.
pub const CLAIM_AMOUNT: u64 = 10_000_000_000;

/// Liquidity of a pool that has just been created: $100,000,000.
pub const STARTING_LIQUIDITY: u64 = 100_000_000_000_000;

/// Liquidity added by one funding of a pool: $1,000,000.
pub const FUNDING_AMOUNT: u64 = 1_000_000_000_000;

/// Funding rate charged when a position closes, in basis points per eight
/// hours.
pub const CLOSING_FUNDING_RATE_BPS: i64 = 10;

/// Whether two identities are the same.
pub fn same_identity(a: &[u8; 32], b: &[u8; 32]) -> (r: bool)
    ensures
        r == (a@ == b@),
{
    let mut i: usize = 0;
    while i < 32
        invariant
            i <= 32,
            forall|j: int| 0 <= j < i ==> a@[j] == b@[j],
        decreases 32 - i,
    {
        if a[i] != b[i] {
            return false;
        }
        i = i + 1;
    }
    assert(a@ =~= b@);
    true
}

/// The parameters that `initialize` sets.
pub open spec fn initial_config(
    signer: [u8; 32],
    bump: u8,
    current_slot: u64,
    max_leverage: u64,
    liquidation_fee: u64,
    maintainance_margin: u16,
    opening_fee: u16,
    closing_fee: u16,
    privacy_fee: u16,
    protocol_fee_share: u16,
) -> Config {
    Config {
        last_updated: current_slot,
        is_paused: false,
        admin: signer,
        bump,
        liquidation_fee,
        max_leverage,
        maintainance_margin,
        opening_fee,
        closing_fee,
        privacy_fee,
        protocol_fee_share,
    }
}

/// Sets the venue's parameters, once, and makes `signer` its administrator.
///
/// `ProgramAlreadyStarted` when the record has been set before;
/// `InvalidInput` when the maintenance margin or the protocol's fee share is
/// more than 10000 basis points.
pub fn initialize(
    config: &mut Config,
    signer: [u8; 32],
    bump: u8,
    current_slot: u64,
    max_leverage: u64,
    liquidation_fee: u64,
    maintainance_margin: u16,
    opening_fee: u16,
    closing_fee: u16,
    privacy_fee: u16,
    protocol_fee_share: u16,
) -> (r: Result<(), ErrorCode>)
    ensures
        old(config).bump != 0 ==> r == Err::<(), ErrorCode>(ErrorCode::ProgramAlreadyStarted),
        old(config).bump == 0 && (maintainance_margin > BASIS_POINTS || protocol_fee_share
            > BASIS_POINTS) ==> r == Err::<(), ErrorCode>(ErrorCode::InvalidInput),
        old(config).bump == 0 && maintainance_margin <= BASIS_POINTS && protocol_fee_share
            <= BASIS_POINTS ==> r is Ok,
        r is Ok ==> *final(config) == initial_config(
            signer,
            bump,
            current_slot,
            max_leverage,
            liquidation_fee,
            maintainance_margin,
            opening_fee,
            closing_fee,
            privacy_fee,
            protocol_fee_share,
        ) && final(config).well_formed(),
        r is Err ==> *final(config) == *old(config),
{
    if config.bump != 0 {
        return Err(ErrorCode::ProgramAlreadyStarted);
    }
    if maintainance_margin as u128 > BASIS_POINTS || protocol_fee_share as u128 > BASIS_POINTS {
        return Err(ErrorCode::InvalidInput);
    }
    *config = Config {
        last_updated: current_slot,
        is_paused: false,
        admin: signer,
        bump,
        liquidation_fee,
        max_leverage,
        maintainance_margin,
        opening_fee,
        closing_fee,
        privacy_fee,
        protocol_fee_share,
    };
    Ok(())
}

/// The trader record of someone who has just registered.
pub open spec fn new_trader(signer: [u8; 32], bump: u8) -> Trader {
    Trader { owner: signer, bump, privacy: false, position_count: 0, active_position: 0 }
}

/// The balance record of someone who has just registered.
pub open spec fn new_balance(signer: [u8; 32], bump: u8, token_mint: String) -> TraderPoolDetail {
    TraderPoolDetail {
        bump,
        token_mint,
        owner: signer,
        balance: STARTING_BALANCE,
        locked_balance: 0,
    }
}

/// Registers `signer` as a trader with a balance of `STARTING_BALANCE` in
/// the asset `token_mint`. `ProgramPaused` while the venue is paused.
pub fn register(
    config: &Config,
    signer: [u8; 32],
    trader_bump: u8,
    balance_bump: u8,
    token_mint: String,
) -> (r: Result<(Trader, TraderPoolDetail), ErrorCode>)
    ensures
        config.is_paused ==> r == Err::<(Trader, TraderPoolDetail), ErrorCode>(
            ErrorCode::ProgramPaused,
        ),
        !config.is_paused ==> r == Ok::<(Trader, TraderPoolDetail), ErrorCode>(
            (new_trader(signer, trader_bump), new_balance(signer, balance_bump, token_mint)),
        ),
        r is Ok ==> r.unwrap().0.well_formed() && r.unwrap().1.well_formed(),
{
    if config.is_paused {
        return Err(ErrorCode::ProgramPaused);
    }
    let trader = Trader {
        owner: signer,
        bump: trader_bump,
        privacy: false,
        position_count: 0,
        active_position: 0,
    };
    let trader_balance = TraderPoolDetail {
        bump: balance_bump,
        token_mint,
        owner: signer,
        balance: STARTING_BALANCE,
        locked_balance: 0,
    };
    Ok((trader, trader_balance))
}

/// Adds `CLAIM_AMOUNT` to a trader's balance. `ProgramPaused` while the
/// venue is paused, `MathOverflow` when the balance would need more than 64
/// bits.
pub fn claim_virtual_balance(config: &Config, trader_balance: &mut TraderPoolDetail) -> (r: Result<
    (),
    ErrorCode,
>)
    ensures
        config.is_paused ==> r == Err::<(), ErrorCode>(ErrorCode::ProgramPaused),
        !config.is_paused && !fits_u64(old(trader_balance).balance + CLAIM_AMOUNT) ==> r == Err::<
            (),
            ErrorCode,
        >(ErrorCode::MathOverflow),
        !config.is_paused && fits_u64(old(trader_balance).balance + CLAIM_AMOUNT) ==> r is Ok,
        r is Ok ==> *final(trader_balance) == (TraderPoolDetail {
            balance: (old(trader_balance).balance + CLAIM_AMOUNT) as u64,
            ..*old(trader_balance)
        }),
        r is Err ==> *final(trader_balance) == *old(trader_balance),
        old(trader_balance).well_formed() ==> final(trader_balance).well_formed(),
{
    if config.is_paused {
        return Err(ErrorCode::ProgramPaused);
    }
    match trader_balance.balance.checked_add(CLAIM_AMOUNT) {
        Some(balance) => {
            trader_balance.balance = balance;
            Ok(())
        },
        None => Err(ErrorCode::MathOverflow),
    }
}

/// The pool that `create_pool` creates.
pub open spec fn new_pool(bump: u8, token_mint: String) -> Vault {
    Vault {
        bump,
        is_paused: false,
        token_mint,
        lp_deposit: STARTING_LIQUIDITY,
        total_lp_shares: 0,
        accumulated_lp_fees: 0,
        trader_deposit: 0,
        trader_collateral: 0,
        total_borrowed: 0,
        accumulated_fees: 0,
        accumulated_liquidation_rewards: 0,
    }
}

/// Creates the pool of the asset `token_mint`, with `STARTING_LIQUIDITY`
/// deposited and nothing lent. `ProgramPaused` while the venue is paused.
pub fn create_pool(config: &Config, bump: u8, token_mint: String) -> (r: Result<Vault, ErrorCode>)
    ensures
        config.is_paused ==> r == Err::<Vault, ErrorCode>(ErrorCode::ProgramPaused),
        !config.is_paused ==> r == Ok::<Vault, ErrorCode>(new_pool(bump, token_mint)),
        r is Ok ==> r.unwrap().well_formed(),
{
    if config.is_paused {
        return Err(ErrorCode::ProgramPaused);
    }
    Ok(
        Vault {
            bump,
            is_paused: false,
            token_mint,
            lp_deposit: STARTING_LIQUIDITY,
            total_lp_shares: 0,
            accumulated_lp_fees: 0,
            trader_deposit: 0,
            trader_collateral: 0,
            total_borrowed: 0,
            accumulated_fees: 0,
            accumulated_liquidation_rewards: 0,
        },
    )
}

/// Adds `FUNDING_AMOUNT` to a pool's deposits. `ProgramPaused` while the
/// venue is paused, `MathOverflow` when the deposits would need more than 64
/// bits.
pub fn fund_pool(config: &Config, pool: &mut Vault) -> (r: Result<(), ErrorCode>)
    ensures
        config.is_paused ==> r == Err::<(), ErrorCode>(ErrorCode::ProgramPaused),
        !config.is_paused && !fits_u64(old(pool).lp_deposit + FUNDING_AMOUNT) ==> r == Err::<
            (),
            ErrorCode,
        >(ErrorCode::MathOverflow),
        !config.is_paused && fits_u64(old(pool).lp_deposit + FUNDING_AMOUNT) ==> r is Ok,
        r is Ok ==> *final(pool) == (Vault {
            lp_deposit: (old(pool).lp_deposit + FUNDING_AMOUNT) as u64,
            ..*old(pool)
        }),
        r is Err ==> *final(pool) == *old(pool),
        old(pool).well_formed() ==> final(pool).well_formed(),
{
    if config.is_paused {
        return Err(ErrorCode::ProgramPaused);
    }
    match pool.lp_deposit.checked_add(FUNDING_AMOUNT) {
        Some(deposit) => {
            pool.lp_deposit = deposit;
            Ok(())
        },
        None => Err(ErrorCode::MathOverflow),
    }
}

/// The market that `open_market` opens.
pub open spec fn new_market(bump: u8, pair: String, decimals: u8, feed_id: String) -> Market {
    Market { bump, pair, decimals, feed_id, total_active_positions: 0, is_paused: false }
}

/// Opens the market of `pair`, with no position on it. `ProgramPaused`
/// while the venue is paused.
pub fn open_market(config: &Config, bump: u8, pair: String, decimals: u8, feed_id: String) -> (r:
    Result<Market, ErrorCode>)
    ensures
        config.is_paused ==> r == Err::<Market, ErrorCode>(ErrorCode::ProgramPaused),
        !config.is_paused ==> r == Ok::<Market, ErrorCode>(
            new_market(bump, pair, decimals, feed_id),
        ),
{
    if config.is_paused {
        return Err(ErrorCode::ProgramPaused);
    }
    Ok(Market { bump, pair, decimals, feed_id, total_active_positions: 0, is_paused: false })
}

/// The verdict on a change to a market by `signer`.
pub open spec fn market_update_checked(config: Config, market: Market, signer: [u8; 32]) -> Result<
    (),
    ErrorCode,
> {
    if config.is_paused || market.is_paused {
        Err(ErrorCode::ProgramPaused)
    } else if signer@ != config.admin@ {
        Err(ErrorCode::Unauthorized)
    } else {
        Ok(())
    }
}

/// Gives a market another oracle feed, where one is given. Only the
/// administrator may do so (`Unauthorized`), and only while neither the
/// venue nor the market is paused (`ProgramPaused`).
pub fn update_market(
    config: &Config,
    market: &mut Market,
    signer: &[u8; 32],
    feed_id: Option<String>,
) -> (r: Result<(), ErrorCode>)
    ensures
        r == market_update_checked(*config, *old(market), *signer),
        r is Ok ==> *final(market) == (match feed_id {
            Some(id) => Market { feed_id: id, ..*old(market) },
            None => *old(market),
        }),
        r is Err ==> *final(market) == *old(market),
{
    if config.is_paused {
        return Err(ErrorCode::ProgramPaused);
    }
    if market.is_paused {
        return Err(ErrorCode::ProgramPaused);
    }
    if !same_identity(signer, &config.admin) {
        return Err(ErrorCode::Unauthorized);
    }
    match feed_id {
        Some(id) => {
            market.feed_id = id;
        },
        None => {},
    }
    Ok(())
}

/// The records as an opened position leaves them, and the position itself.
pub struct Opened {
    pub market: Market,
    pub pool: Vault,
    pub trader: Trader,
    pub trader_balance: TraderPoolDetail,
    pub position: Position,
}

/// The verdict on a request to open a position, before any price is read.
pub open spec fn opening_checked(
    config: Config,
    market: Market,
    pool: Vault,
    trader: Trader,
    trader_balance: TraderPoolDetail,
    position_id: u64,
    desired_size: u64,
    desired_entry_price: u64,
    collateral: u64,
) -> Result<(), ErrorCode> {
    if config.is_paused || market.is_paused || pool.is_paused {
        Err(ErrorCode::ProgramPaused)
    } else if position_id != trader.position_count {
        Err(ErrorCode::InvalidPositionId)
    } else if collateral_checked(collateral) is Err {
        collateral_checked(collateral)
    } else if position_size_checked(desired_size) is Err {
        position_size_checked(desired_size)
    } else if price_checked(desired_entry_price) is Err {
        price_checked(desired_entry_price)
    } else if trader_balance.available() < collateral {
        Err(ErrorCode::NotEnoughBalance)
    } else {
        Ok(())
    }
}

/// The position that opens on `terms` at `current_price` and tick `slot`.
pub open spec fn new_position(
    owner: [u8; 32],
    bump: u8,
    slot: u64,
    token_mint: String,
    pair: String,
    position_id: u64,
    desired_size: u64,
    desired_entry_price: u64,
    is_long: bool,
    current_price: u64,
    terms: OpeningTerms,
) -> Position {
    Position {
        owner,
        bump,
        entered_at: slot,
        closed_at: 0,
        last_funding_slot: slot,
        cumulative_funding_paid: 0,
        position_id,
        is_long,
        token_mint,
        pair,
        current_target_price: terms.params.target_price,
        desired_entry_price,
        desired_size,
        collateral: terms.effective_collateral,
        actual_size: terms.params.actual_size,
        actual_entered_price: current_price,
        current_price,
        position_value: terms.params.position_value,
        leverage: terms.params.leverage_bps,
        last_updated: slot,
    }
}

/// Whether the records can take in a position on `terms` without a counter
/// running over.
pub open spec fn open_fits(
    market: Market,
    pool: Vault,
    trader: Trader,
    trader_balance: TraderPoolDetail,
    terms: OpeningTerms,
) -> bool {
    &&& fits_u64(pool.accumulated_fees + terms.protocol_fee)
    &&& fits_u64(pool.accumulated_lp_fees + terms.lp_fee)
    &&& fits_u64(trader_balance.balance - terms.opening_fee)
    &&& fits_u64(trader_balance.locked_balance + terms.effective_collateral)
    &&& fits_u64(pool.trader_collateral + terms.effective_collateral)
    &&& fits_u64(pool.total_borrowed + terms.borrowing_amount)
    &&& fits_u64(trader.position_count + 1)
    &&& fits_u64(trader.active_position + 1)
    &&& fits_u64(market.total_active_positions + 1)
}

/// The pool after it has lent to a position on `terms` and taken its fee.
pub open spec fn pool_after_open(pool: Vault, terms: OpeningTerms) -> Vault {
    Vault {
        accumulated_fees: (pool.accumulated_fees + terms.protocol_fee) as u64,
        accumulated_lp_fees: (pool.accumulated_lp_fees + terms.lp_fee) as u64,
        trader_collateral: (pool.trader_collateral + terms.effective_collateral) as u64,
        total_borrowed: (pool.total_borrowed + terms.borrowing_amount) as u64,
        ..pool
    }
}

/// The balance after the opening fee has left it and the rest of the
/// collateral is locked.
pub open spec fn balance_after_open(
    trader_balance: TraderPoolDetail,
    terms: OpeningTerms,
) -> TraderPoolDetail {
    TraderPoolDetail {
        balance: (trader_balance.balance - terms.opening_fee) as u64,
        locked_balance: (trader_balance.locked_balance + terms.effective_collateral) as u64,
        ..trader_balance
    }
}

/// What `open_position` does.
pub open spec fn opened(
    config: Config,
    market: Market,
    pool: Vault,
    trader: Trader,
    trader_balance: TraderPoolDetail,
    price_update: PriceUpdate,
    clock: Clock,
    owner: [u8; 32],
    bump: u8,
    token_mint: String,
    pair: String,
    position_id: u64,
    desired_size: u64,
    desired_entry_price: u64,
    collateral: u64,
    is_long: bool,
) -> Result<Opened, ErrorCode> {
    let checked = opening_checked(
        config,
        market,
        pool,
        trader,
        trader_balance,
        position_id,
        desired_size,
        desired_entry_price,
        collateral,
    );
    if checked is Err {
        Err(checked->Err_0)
    } else {
        match normalized_price(price_update, encode_utf8(market.feed_id@), clock) {
            Err(e) => Err(e),
            Ok(current_price) => if price_checked(current_price) is Err {
                Err(price_checked(current_price)->Err_0)
            } else {
                match terms_at_open(
                    config,
                    pool.available() as u64,
                    collateral,
                    desired_size,
                    desired_entry_price,
                    is_long,
                    current_price,
                    market.decimals,
                ) {
                    Err(e) => Err(e),
                    Ok(terms) => if !open_fits(market, pool, trader, trader_balance, terms) {
                        Err(ErrorCode::MathOverflow)
                    } else {
                        Ok(
                            Opened {
                                market: Market {
                                    total_active_positions: (market.total_active_positions
                                        + 1) as u64,
                                    ..market
                                },
                                pool: pool_after_open(pool, terms),
                                trader: Trader {
                                    position_count: (trader.position_count + 1) as u64,
                                    active_position: (trader.active_position + 1) as u64,
                                    ..trader
                                },
                                trader_balance: balance_after_open(trader_balance, terms),
                                position: new_position(
                                    owner,
                                    bump,
                                    clock.slot,
                                    token_mint,
                                    pair,
                                    position_id,
                                    desired_size,
                                    desired_entry_price,
                                    is_long,
                                    current_price,
                                    terms,
                                ),
                            },
                        )
                    },
                }
            },
        }
    }
}

/// `a + b`, or `MathOverflow` when the sum needs more than 64 bits.
fn checked_sum(a: u64, b: u64) -> (r: Result<u64, ErrorCode>)
    ensures
        fits_u64(a + b) ==> r == Ok::<u64, ErrorCode>((a + b) as u64),
        !fits_u64(a + b) ==> r == Err::<u64, ErrorCode>(ErrorCode::MathOverflow),
{
    match a.checked_add(b) {
        Some(sum) => Ok(sum),
        None => Err(ErrorCode::MathOverflow),
    }
}

/// `a - b`, or `MathOverflow` when `b` is the larger.
fn checked_difference(a: u64, b: u64) -> (r: Result<u64, ErrorCode>)
    ensures
        fits_u64(a - b) ==> r == Ok::<u64, ErrorCode>((a - b) as u64),
        !fits_u64(a - b) ==> r == Err::<u64, ErrorCode>(ErrorCode::MathOverflow),
{
    match a.checked_sub(b) {
        Some(difference) => Ok(difference),
        None => Err(ErrorCode::MathOverflow),
    }
}

/// Opens a position for `owner` at the oracle's current price.
///
/// The request is checked first: nothing is paused, `position_id` is the
/// trader's count of positions, collateral, size and desired entry price are
/// valid, and the trader's free balance covers the collateral. Then the
/// price is read from `price_update` and the terms are worked out as
/// `opening_terms` does. The opening fee leaves the trader's balance for the
/// pool's two fee counters, the rest of the collateral is locked, the pool
/// lends what the position's value exceeds it by, and the counters of open
/// positions go up by one.
///
/// On any error no record is changed.
pub fn open_position(
    config: &Config,
    market: &mut Market,
    pool: &mut Vault,
    trader: &mut Trader,
    trader_balance: &mut TraderPoolDetail,
    price_update: &PriceUpdate,
    clock: &Clock,
    owner: [u8; 32],
    bump: u8,
    token_mint: String,
    pair: String,
    position_id: u64,
    desired_size: u64,
    desired_entry_price: u64,
    collateral: u64,
    is_long: bool,
) -> (r: Result<Position, ErrorCode>)
    ensures
        match opened(
            *config,
            *old(market),
            *old(pool),
            *old(trader),
            *old(trader_balance),
            *price_update,
            *clock,
            owner,
            bump,
            token_mint,
            pair,
            position_id,
            desired_size,
            desired_entry_price,
            collateral,
            is_long,
        ) {
            Ok(o) => {
                &&& r == Ok::<Position, ErrorCode>(o.position)
                &&& *final(market) == o.market
                &&& *final(pool) == o.pool
                &&& *final(trader) == o.trader
                &&& *final(trader_balance) == o.trader_balance
            },
            Err(e) => {
                &&& r == Err::<Position, ErrorCode>(e)
                &&& *final(market) == *old(market)
                &&& *final(pool) == *old(pool)
                &&& *final(trader) == *old(trader)
                &&& *final(trader_balance) == *old(trader_balance)
            },
        },
        r is Ok ==> r.unwrap().leverage <= config.max_leverage,
        r is Ok && is_long ==> r.unwrap().current_target_price > r.unwrap().current_price
            > desired_entry_price,
        r is Ok && !is_long ==> desired_entry_price > r.unwrap().current_price
            > r.unwrap().current_target_price,
        r is Ok && old(pool).well_formed() ==> final(pool).well_formed(),
        r is Ok && old(trader).well_formed() ==> final(trader).well_formed(),
        r is Ok ==> final(trader_balance).well_formed(),
{
    if config.is_paused {
        return Err(ErrorCode::ProgramPaused);
    }
    if market.is_paused {
        return Err(ErrorCode::ProgramPaused);
    }
    if pool.is_paused {
        return Err(ErrorCode::ProgramPaused);
    }
    if position_id != trader.position_count {
        return Err(ErrorCode::InvalidPositionId);
    }
    validate_collateral(collateral)?;
    validate_position_size(desired_size)?;
    validate_price(desired_entry_price)?;
    if trader_balance.available_balance() < collateral {
        return Err(ErrorCode::NotEnoughBalance);
    }
    let current_price = get_normalized_price(price_update, market.feed_id.as_str(), clock)?;
    validate_price(current_price)?;
    let terms = opening_terms(
        config,
        pool.available_liquidity(),
        collateral,
        desired_size,
        desired_entry_price,
        is_long,
        current_price,
        market.decimals,
    )?;
    let accumulated_fees = checked_sum(pool.accumulated_fees, terms.protocol_fee)?;
    let accumulated_lp_fees = checked_sum(pool.accumulated_lp_fees, terms.lp_fee)?;
    let balance = checked_difference(trader_balance.balance, terms.opening_fee)?;
    let locked_balance = checked_sum(trader_balance.locked_balance, terms.effective_collateral)?;
    let trader_collateral = checked_sum(pool.trader_collateral, terms.effective_collateral)?;
    let total_borrowed = checked_sum(pool.total_borrowed, terms.borrowing_amount)?;
    let position_count = checked_sum(trader.position_count, 1)?;
    let active_position = checked_sum(trader.active_position, 1)?;
    let total_active_positions = checked_sum(market.total_active_positions, 1)?;

    pool.accumulated_fees = accumulated_fees;
    pool.accumulated_lp_fees = accumulated_lp_fees;
    pool.trader_collateral = trader_collateral;
    pool.total_borrowed = total_borrowed;
    trader_balance.balance = balance;
    trader_balance.locked_balance = locked_balance;
    trader.position_count = position_count;
    trader.active_position = active_position;
    market.total_active_positions = total_active_positions;
    Ok(
        Position {
            owner,
            bump,
            entered_at: clock.slot,
            closed_at: 0,
            last_funding_slot: clock.slot,
            cumulative_funding_paid: 0,
            position_id,
            is_long,
            token_mint,
            pair,
            current_target_price: terms.params.target_price,
            desired_entry_price,
            desired_size,
            collateral: terms.effective_collateral,
            actual_size: terms.params.actual_size,
            actual_entered_price: current_price,
            current_price,
            position_value: terms.params.position_value,
            leverage: terms.params.leverage_bps,
            last_updated: clock.slot,
        },
    )
}

/// Leverage is capped: a request whose position comes out with more
/// leverage than `config.max_leverage` never opens. Where the request, the
/// price and the opening fee are accepted and the position can be sized, it
/// is refused with `ExcessiveLeverage`, whatever its value and size.
pub proof fn lemma_leverage_is_capped(
    config: Config,
    market: Market,
    pool: Vault,
    trader: Trader,
    trader_balance: TraderPoolDetail,
    price_update: PriceUpdate,
    clock: Clock,
    owner: [u8; 32],
    bump: u8,
    token_mint: String,
    pair: String,
    position_id: u64,
    desired_size: u64,
    desired_entry_price: u64,
    collateral: u64,
    is_long: bool,
)
    ensures
        ({
            let outcome = opened(
                config,
                market,
                pool,
                trader,
                trader_balance,
                price_update,
                clock,
                owner,
                bump,
                token_mint,
                pair,
                position_id,
                desired_size,
                desired_entry_price,
                collateral,
                is_long,
            );
            let price = normalized_price(price_update, encode_utf8(market.feed_id@), clock);
            let fee = bps_of(collateral as int, config.opening_fee as int);
            let sized = position_at_open(
                desired_entry_price,
                desired_size,
                price.unwrap(),
                (collateral - fee) as u64,
                is_long,
                market.decimals,
            );
            &&& outcome is Ok ==> outcome.unwrap().position.leverage <= config.max_leverage
            &&& {
                &&& opening_checked(
                    config,
                    market,
                    pool,
                    trader,
                    trader_balance,
                    position_id,
                    desired_size,
                    desired_entry_price,
                    collateral,
                ) is Ok
                &&& price is Ok
                &&& price_checked(price.unwrap()) is Ok
                &&& 0 < fee <= collateral
                &&& collateral - fee >= MIN_COLLATERAL / 2
                &&& sized is Ok
                &&& sized.unwrap().leverage_bps > config.max_leverage
            } ==> outcome == Err::<Opened, ErrorCode>(ErrorCode::ExcessiveLeverage)
        }),
{
}

/// The records as a closed position leaves them, and the position itself.
pub struct Closed {
    pub market: Market,
    pub pool: Vault,
    pub trader: Trader,
    pub trader_balance: TraderPoolDetail,
    pub position: Position,
}

/// Whether the records can let go of `position` on the settlement `s`
/// without a counter running under or over.
pub open spec fn close_fits(
    market: Market,
    pool: Vault,
    trader: Trader,
    trader_balance: TraderPoolDetail,
    position: Position,
    s: Settlement,
) -> bool {
    &&& fits_u64(pool.total_borrowed - s.borrowed_amount)
    &&& fits_u64(pool.trader_collateral - position.collateral)
    &&& fits_u64(pool.accumulated_fees + s.protocol_fee)
    &&& fits_u64(pool.accumulated_lp_fees + s.lp_fee)
    &&& fits_u64(trader_balance.locked_balance - position.collateral)
    &&& fits_u64(trader_balance.balance + s.amount_to_return)
    &&& fits_u64(trader.active_position - 1)
    &&& fits_u64(market.total_active_positions - 1)
}

/// The pool after `position` has given back what it borrowed and paid its
/// closing fee.
pub open spec fn pool_after_close(pool: Vault, position: Position, s: Settlement) -> Vault {
    Vault {
        total_borrowed: (pool.total_borrowed - s.borrowed_amount) as u64,
        trader_collateral: (pool.trader_collateral - position.collateral) as u64,
        accumulated_fees: (pool.accumulated_fees + s.protocol_fee) as u64,
        accumulated_lp_fees: (pool.accumulated_lp_fees + s.lp_fee) as u64,
        ..pool
    }
}

/// The balance after the position's collateral is unlocked and the trader
/// has been paid.
pub open spec fn balance_after_close(
    trader_balance: TraderPoolDetail,
    position: Position,
    s: Settlement,
) -> TraderPoolDetail {
    TraderPoolDetail {
        locked_balance: (trader_balance.locked_balance - position.collateral) as u64,
        balance: (trader_balance.balance + s.amount_to_return) as u64,
        ..trader_balance
    }
}

/// What `close_position` does.
pub open spec fn closed(
    config: Config,
    market: Market,
    pool: Vault,
    trader: Trader,
    trader_balance: TraderPoolDetail,
    position: Position,
    price_update: PriceUpdate,
    clock: Clock,
) -> Result<Closed, ErrorCode> {
    if position.closed_at != 0 {
        Err(ErrorCode::PositionAlreadyClosed)
    } else if config.is_paused || market.is_paused || pool.is_paused {
        Err(ErrorCode::ProgramPaused)
    } else {
        match normalized_price(price_update, encode_utf8(market.feed_id@), clock) {
            Err(e) => Err(e),
            Ok(current_price) => if price_checked(current_price) is Err {
                Err(price_checked(current_price)->Err_0)
            } else {
                match position.funding_at(
                    clock.slot,
                    current_price,
                    CLOSING_FUNDING_RATE_BPS,
                    market.decimals,
                ) {
                    Err(e) => Err(e),
                    Ok(funding) => {
                        let funded = position.with_funding(clock.slot, funding);
                        match pnl(funded, current_price, market.decimals) {
                            Err(e) => Err(e),
                            Ok(result) => match settlement(funded, result, config) {
                                Err(e) => Err(e),
                                Ok(s) => if !close_fits(
                                    market,
                                    pool,
                                    trader,
                                    trader_balance,
                                    funded,
                                    s,
                                ) {
                                    Err(ErrorCode::MathOverflow)
                                } else {
                                    Ok(
                                        Closed {
                                            market: Market {
                                                total_active_positions: (
                                                market.total_active_positions - 1) as u64,
                                                ..market
                                            },
                                            pool: pool_after_close(pool, funded, s),
                                            trader: Trader {
                                                active_position: (trader.active_position
                                                    - 1) as u64,
                                                ..trader
                                            },
                                            trader_balance: balance_after_close(
                                                trader_balance,
                                                funded,
                                                s,
                                            ),
                                            position: Position { closed_at: clock.slot, ..funded },
                                        },
                                    )
                                },
                            },
                        }
                    },
                }
            },
        }
    }
}

/// Closes an open position at the oracle's current price.
///
/// Funding is settled up to the current tick at
/// `CLOSING_FUNDING_RATE_BPS`, then the profit or loss is worked out and
/// settled as `settle` does. The pool gets back what it lent and takes the
/// closing fee into its two fee counters, the collateral is unlocked, the
/// trader is paid, the position is marked closed at the current tick, and
/// the counters of open positions go down by one.
///
/// On any error no record is changed. A position closed at tick zero still
/// reads as open, since zero marks an open position: the ledger's clock is
/// expected to have left zero behind.
pub fn close_position(
    config: &Config,
    market: &mut Market,
    pool: &mut Vault,
    trader: &mut Trader,
    trader_balance: &mut TraderPoolDetail,
    position: &mut Position,
    price_update: &PriceUpdate,
    clock: &Clock,
) -> (r: Result<(), ErrorCode>)
    ensures
        match closed(
            *config,
            *old(market),
            *old(pool),
            *old(trader),
            *old(trader_balance),
            *old(position),
            *price_update,
            *clock,
        ) {
            Ok(c) => {
                &&& r is Ok
                &&& *final(market) == c.market
                &&& *final(pool) == c.pool
                &&& *final(trader) == c.trader
                &&& *final(trader_balance) == c.trader_balance
                &&& *final(position) == c.position
            },
            Err(e) => {
                &&& r == Err::<(), ErrorCode>(e)
                &&& *final(market) == *old(market)
                &&& *final(pool) == *old(pool)
                &&& *final(trader) == *old(trader)
                &&& *final(trader_balance) == *old(trader_balance)
                &&& *final(position) == *old(position)
            },
        },
        r is Ok ==> final(position).closed_at == clock.slot,
        r is Ok && clock.slot != 0 ==> !final(position).is_open(),
        r is Ok && old(pool).well_formed() ==> final(pool).well_formed(),
        r is Ok && old(trader).well_formed() ==> final(trader).well_formed(),
        r is Ok && old(trader_balance).well_formed() ==> final(trader_balance).well_formed(),
{
    if position.closed_at != 0 {
        return Err(ErrorCode::PositionAlreadyClosed);
    }
    if config.is_paused {
        return Err(ErrorCode::ProgramPaused);
    }
    if market.is_paused {
        return Err(ErrorCode::ProgramPaused);
    }
    if pool.is_paused {
        return Err(ErrorCode::ProgramPaused);
    }
    let current_price = get_normalized_price(price_update, market.feed_id.as_str(), clock)?;
    validate_price(current_price)?;
    let (_, funding_paid) = position.funding_settled(
        clock.slot,
        current_price,
        CLOSING_FUNDING_RATE_BPS,
        market.decimals,
    )?;
    let pnl_result = calculate_pnl_after_funding(
        position,
        funding_paid,
        current_price,
        market.decimals,
    )?;
    let s = settle(position, &pnl_result, config)?;
    let total_borrowed = checked_difference(pool.total_borrowed, s.borrowed_amount)?;
    let trader_collateral = checked_difference(pool.trader_collateral, position.collateral)?;
    let accumulated_fees = checked_sum(pool.accumulated_fees, s.protocol_fee)?;
    let accumulated_lp_fees = checked_sum(pool.accumulated_lp_fees, s.lp_fee)?;
    let locked_balance = checked_difference(trader_balance.locked_balance, position.collateral)?;
    let balance = checked_sum(trader_balance.balance, s.amount_to_return)?;
    let active_position = checked_difference(trader.active_position, 1)?;
    let total_active_positions = checked_difference(market.total_active_positions, 1)?;

    pool.total_borrowed = total_borrowed;
    pool.trader_collateral = trader_collateral;
    pool.accumulated_fees = accumulated_fees;
    pool.accumulated_lp_fees = accumulated_lp_fees;
    trader_balance.locked_balance = locked_balance;
    trader_balance.balance = balance;
    position.last_funding_slot = clock.slot;
    position.cumulative_funding_paid = funding_paid;
    position.closed_at = clock.slot;
    trader.active_position = active_position;
    market.total_active_positions = total_active_positions;
    Ok(())
}

/// A position that closes at the tick and the price at which it opened has
/// run up no funding and made neither profit nor loss: the trader gets back
/// the collateral behind it less the closing fee, and nothing where the fee
/// is the larger. With a fee share of at most 10000 basis points the close
/// can only fail where one of the pool's fee counters or the trader's balance
/// would run over.
pub proof fn lemma_round_trip(
    config: Config,
    market: Market,
    pool: Vault,
    trader: Trader,
    trader_balance: TraderPoolDetail,
    price_update: PriceUpdate,
    clock: Clock,
    owner: [u8; 32],
    bump: u8,
    token_mint: String,
    pair: String,
    position_id: u64,
    desired_size: u64,
    desired_entry_price: u64,
    collateral: u64,
    is_long: bool,
)
    requires
        config.well_formed(),
        opened(
            config,
            market,
            pool,
            trader,
            trader_balance,
            price_update,
            clock,
            owner,
            bump,
            token_mint,
            pair,
            position_id,
            desired_size,
            desired_entry_price,
            collateral,
            is_long,
        ) is Ok,
    ensures
        ({
            let o = opened(
                config,
                market,
                pool,
                trader,
                trader_balance,
                price_update,
                clock,
                owner,
                bump,
                token_mint,
                pair,
                position_id,
                desired_size,
                desired_entry_price,
                collateral,
                is_long,
            ).unwrap();
            let outcome = closed(
                config,
                o.market,
                o.pool,
                o.trader,
                o.trader_balance,
                o.position,
                price_update,
                clock,
            );
            let closing_fee = bps_of(o.position.position_value as int, config.closing_fee as int);
            let protocol_fee = bps_of(closing_fee, config.protocol_fee_share as int);
            let returned = floored_sub(o.position.collateral as int, closing_fee);
            &&& closing_fee <= o.position.collateral ==> returned == o.position.collateral
                - closing_fee
            &&& outcome is Ok <==> fits_u64(o.pool.accumulated_fees + protocol_fee) && fits_u64(
                o.pool.accumulated_lp_fees + closing_fee - protocol_fee,
            ) && fits_u64(o.trader_balance.balance + returned)
            &&& outcome is Err ==> outcome->Err_0 == ErrorCode::MathOverflow
            &&& outcome is Ok ==> {
                &&& outcome.unwrap().trader_balance.balance == o.trader_balance.balance + returned
                &&& outcome.unwrap().trader_balance.locked_balance == trader_balance.locked_balance
                &&& outcome.unwrap().position.cumulative_funding_paid == 0
                &&& outcome.unwrap().pool.total_borrowed == pool.total_borrowed
                &&& outcome.unwrap().pool.trader_collateral == pool.trader_collateral
                &&& outcome.unwrap().trader.active_position == trader.active_position
                &&& outcome.unwrap().market.total_active_positions == market.total_active_positions
            }
        }),
{
    let o = opened(
        config,
        market,
        pool,
        trader,
        trader_balance,
        price_update,
        clock,
        owner,
        bump,
        token_mint,
        pair,
        position_id,
        desired_size,
        desired_entry_price,
        collateral,
        is_long,
    ).unwrap();
    let current_price = normalized_price(price_update, encode_utf8(market.feed_id@), clock).unwrap();
    let terms = terms_at_open(
        config,
        pool.available() as u64,
        collateral,
        desired_size,
        desired_entry_price,
        is_long,
        current_price,
        market.decimals,
    ).unwrap();
    let position = o.position;
    // No tick has passed: nothing is charged and the position stays as it is.
    let funding = FundingPayment { funding_amount: 0, is_payment: true };
    assert(position.funding_at(
        clock.slot,
        current_price,
        CLOSING_FUNDING_RATE_BPS,
        market.decimals,
    ) == Ok::<FundingPayment, ErrorCode>(funding));
    assert(position.with_funding(clock.slot, funding) == position);
    // The price has not moved: neither profit nor loss.
    let result = PnLResult { gross_pnl: 0, net_pnl: 0, is_profit: false };
    assert(pnl(position, current_price, market.decimals) == Ok::<PnLResult, ErrorCode>(result));
    // The closing fee fits, and the protocol's part is at most the fee.
    let closing_fee = bps_of(position.position_value as int, config.closing_fee as int);
    lemma_share_is_part(position.position_value as int, config.closing_fee as int);
    lemma_share_is_part(closing_fee, config.protocol_fee_share as int);
    assert(closing_fee <= u64::MAX) by {
        assert(position.position_value * config.closing_fee / 10_000 <= u64::MAX)
            by (nonlinear_arith)
            requires
                position.position_value <= MAX_POSITION_VALUE,
                config.closing_fee <= u16::MAX,
        ;
    }
    let settled = settlement(position, result, config);
    assert(settled is Ok);
    // What the position took from the pool and locked, it gives back.
    assert(o.pool == pool_after_open(pool, terms));
    assert(o.trader_balance == balance_after_open(trader_balance, terms));
    assert(close_fits(o.market, o.pool, o.trader, o.trader_balance, position, settled.unwrap())
        <==> fits_u64(o.pool.accumulated_fees + settled.unwrap().protocol_fee) && fits_u64(
        o.pool.accumulated_lp_fees + settled.unwrap().lp_fee,
    ) && fits_u64(o.trader_balance.balance + settled.unwrap().amount_to_return));
}

} // verus!
