//! The books of a market and of a pool, held against the positions they
//! account for: the market counts the positions that are open, the pool
//! holds the collateral behind them. Opening and closing a position keep
//! both in step.
use vstd::prelude::*;
use crate::price_update::{Clock, PriceUpdate};
use crate::regret_market::{closed, opened};
use crate::state::config::Config;
use crate::state::market::Market;
use crate::state::position::Position;
use crate::state::trader::{Trader, TraderPoolDetail};
use crate::state::vault::Vault;

verus! {

/// How many of `positions` are open.
pub open spec fn open_count(positions: Seq<Position>) -> int
    decreases positions.len(),
{
    if positions.len() == 0 {
        0
    } else {
        open_count(positions.drop_last()) + if positions.last().is_open() {
            1int
        } else {
            0int
        }
    }
}

/// The collateral behind those of `positions` that are open.
pub open spec fn open_collateral(positions: Seq<Position>) -> int
    decreases positions.len(),
{
    if positions.len() == 0 {
        0
    } else {
        open_collateral(positions.drop_last()) + if positions.last().is_open() {
            positions.last().collateral as int
        } else {
            0int
        }
    }
}

/// Whether the books of `market` and `pool` agree with `positions`: the
/// market counts the open ones, the pool holds their collateral.
pub open spec fn books_agree(market: Market, pool: Vault, positions: Seq<Position>) -> bool {
    &&& market.total_active_positions == open_count(positions)
    &&& pool.trader_collateral == open_collateral(positions)
}

/// One more position adds itself to the count and its collateral to the
/// sum, if it is open.
pub proof fn lemma_position_added(positions: Seq<Position>, position: Position)
    ensures
        open_count(positions.push(position)) == open_count(positions) + if position.is_open() {
            1int
        } else {
            0int
        },
        open_collateral(positions.push(position)) == open_collateral(positions)
            + if position.is_open() {
            position.collateral as int
        } else {
            0int
        },
{
    assert(positions.push(position).drop_last() =~= positions);
}

/// A position that is replaced takes its part out of the count and the sum
/// and puts the part of its replacement in.
pub proof fn lemma_position_replaced(positions: Seq<Position>, i: int, position: Position)
    requires
        0 <= i < positions.len(),
    ensures
        open_count(positions.update(i, position)) == open_count(positions) - if positions[i].is_open() {
            1int
        } else {
            0int
        } + if position.is_open() {
            1int
        } else {
            0int
        },
        open_collateral(positions.update(i, position)) == open_collateral(positions)
            - if positions[i].is_open() {
            positions[i].collateral as int
        } else {
            0int
        } + if position.is_open() {
            position.collateral as int
        } else {
            0int
        },
    decreases positions.len(),
{
    let replaced = positions.update(i, position);
    if i == positions.len() - 1 {
        assert(replaced.drop_last() =~= positions.drop_last());
    } else {
        assert(replaced.drop_last() =~= positions.drop_last().update(i, position));
        lemma_position_replaced(positions.drop_last(), i, position);
    }
}

/// Opening a position keeps the books: where they agreed with the
/// positions before, they agree with the positions and the new one after.
pub proof fn lemma_open_keeps_the_books(
    positions: Seq<Position>,
    config: Config,
    market: Market,
    pool: Vault,
    trader: Trader,
    trader_balance: TraderPoolDetail,
    price_update: PriceUpdate,
    clock: Clock,
    owner: [u8; 32],
    bump: u8,
    token_mint: String,
    pair: String,
    position_id: u64,
    desired_size: u64,
    desired_entry_price: u64,
    collateral: u64,
    is_long: bool,
)
    requires
        books_agree(market, pool, positions),
        opened(
            config,
            market,
            pool,
            trader,
            trader_balance,
            price_update,
            clock,
            owner,
            bump,
            token_mint,
            pair,
            position_id,
            desired_size,
            desired_entry_price,
            collateral,
            is_long,
        ) is Ok,
    ensures
        ({
            let o = opened(
                config,
                market,
                pool,
                trader,
                trader_balance,
                price_update,
                clock,
                owner,
                bump,
                token_mint,
                pair,
                position_id,
                desired_size,
                desired_entry_price,
                collateral,
                is_long,
            ).unwrap();
            &&& o.position.is_open()
            &&& books_agree(o.market, o.pool, positions.push(o.position))
        }),
{
    let o = opened(
        config,
        market,
        pool,
        trader,
        trader_balance,
        price_update,
        clock,
        owner,
        bump,
        token_mint,
        pair,
        position_id,
        desired_size,
        desired_entry_price,
        collateral,
        is_long,
    ).unwrap();
    lemma_position_added(positions, o.position);
}

/// Closing a position keeps the books: where they agreed with the
/// positions before, they agree after with the positions of which the one
/// that closed is replaced by what it has become. The tick of the close
/// must not be zero, which would leave the position reading as open.
pub proof fn lemma_close_keeps_the_books(
    positions: Seq<Position>,
    i: int,
    config: Config,
    market: Market,
    pool: Vault,
    trader: Trader,
    trader_balance: TraderPoolDetail,
    price_update: PriceUpdate,
    clock: Clock,
)
    requires
        0 <= i < positions.len(),
        books_agree(market, pool, positions),
        clock.slot != 0,
        closed(config, market, pool, trader, trader_balance, positions[i], price_update, clock) is Ok,
    ensures
        ({
            let c = closed(
                config,
                market,
                pool,
                trader,
                trader_balance,
                positions[i],
                price_update,
                clock,
            ).unwrap();
            &&& !c.position.is_open()
            &&& books_agree(c.market, c.pool, positions.update(i, c.position))
        }),
{
    let c = closed(
        config,
        market,
        pool,
        trader,
        trader_balance,
        positions[i],
        price_update,
        clock,
    ).unwrap();
    lemma_position_replaced(positions, i, c.position);
}

} // verus!
