use regret_program::price_update::{Clock, OracleError, PriceUpdate, VerificationLevel};
use regret_program::regret_market::{
    claim_virtual_balance, close_position, create_pool, fund_pool, initialize, open_market,
    open_position, register, same_identity, update_market, CLAIM_AMOUNT, FUNDING_AMOUNT,
    STARTING_BALANCE, STARTING_LIQUIDITY,
};
use regret_program::state::{Config, Market, Position, Trader, TraderPoolDetail, Vault};
use regret_program::ErrorCode;

const BTC_USD: &str = "0xe62df6c8b4a85fe1a67db44dc12de5db330f7ac66b72dc658afedf0f4a415b43";
const ADMIN: [u8; 32] = [7; 32];
const ALICE: [u8; 32] = [1; 32];

fn btc_usd_id() -> [u8; 32] {
    [
        0xe6, 0x2d, 0xf6, 0xc8, 0xb4, 0xa8, 0x5f, 0xe1, 0xa6, 0x7d, 0xb4, 0x4d, 0xc1, 0x2d, 0xe5,
        0xdb, 0x33, 0x0f, 0x7a, 0xc6, 0x6b, 0x72, 0xdc, 0x65, 0x8a, 0xfe, 0xdf, 0x0f, 0x4a, 0x41,
        0x5b, 0x43,
    ]
}

fn blank_config() -> Config {
    Config {
        bump: 0,
        is_paused: false,
        admin: [0; 32],
        max_leverage: 0,
        liquidation_fee: 0,
        maintainance_margin: 0,
        opening_fee: 0,
        closing_fee: 0,
        privacy_fee: 0,
        protocol_fee_share: 0,
        last_updated: 0,
    }
}

fn config() -> Config {
    let mut c = blank_config();
    initialize(&mut c, ADMIN, 255, 42, 500_000, 100, 500, 10, 10, 5, 3_000).unwrap();
    c
}

fn paused() -> Config {
    Config { is_paused: true, ..config() }
}

/// BTC at `dollars` a token, published at second 1,000.
fn btc_at(dollars: i64) -> PriceUpdate {
    PriceUpdate {
        verification_level: VerificationLevel::Full,
        feed_id: btc_usd_id(),
        price: dollars * 100_000_000,
        conf: 1_000_000,
        exponent: -8,
        publish_time: 1_000,
    }
}

fn tick(slot: u64) -> Clock {
    Clock { slot, unix_timestamp: 1_010 }
}

struct Venue {
    config: Config,
    market: Market,
    pool: Vault,
    trader: Trader,
    balance: TraderPoolDetail,
}

fn venue() -> Venue {
    let config = config();
    let market = open_market(&config, 250, String::from("BTC/USD"), 8, String::from(BTC_USD)).unwrap();
    let pool = create_pool(&config, 251, String::from("USDC")).unwrap();
    let (trader, balance) = register(&config, ALICE, 252, 253, String::from("USDC")).unwrap();
    Venue { config, market, pool, trader, balance }
}

impl Venue {
    fn open(
        &mut self,
        update: &PriceUpdate,
        clock: &Clock,
        position_id: u64,
        desired_size: u64,
        desired_entry_price: u64,
        collateral: u64,
        is_long: bool,
    ) -> Result<Position, ErrorCode> {
        open_position(
            &self.config,
            &mut self.market,
            &mut self.pool,
            &mut self.trader,
            &mut self.balance,
            update,
            clock,
            ALICE,
            254,
            String::from("USDC"),
            String::from("BTC/USD"),
            position_id,
            desired_size,
            desired_entry_price,
            collateral,
            is_long,
        )
    }

    /// One token asked for at $49,900 with $10,000, while BTC is at $50,000.
    fn open_long(&mut self) -> Result<Position, ErrorCode> {
        let id = self.trader.position_count;
        self.open(&btc_at(50_000), &tick(100), id, 100_000_000, 49_900_000_000, 10_000_000_000, true)
    }

    fn close(
        &mut self,
        position: &mut Position,
        update: &PriceUpdate,
        clock: &Clock,
    ) -> Result<(), ErrorCode> {
        close_position(
            &self.config,
            &mut self.market,
            &mut self.pool,
            &mut self.trader,
            &mut self.balance,
            position,
            update,
            clock,
        )
    }

    fn records(&self) -> (Market, Vault, Trader, TraderPoolDetail) {
        (self.market.clone(), self.pool.clone(), self.trader.clone(), self.balance.clone())
    }
}

#[test]
fn initialize_sets_every_parameter() {
    let mut c = blank_config();
    assert_eq!(initialize(&mut c, ADMIN, 255, 42, 500_000, 100, 500, 10, 20, 5, 3_000), Ok(()));
    assert_eq!(
        c,
        Config {
            bump: 255,
            is_paused: false,
            admin: ADMIN,
            max_leverage: 500_000,
            liquidation_fee: 100,
            maintainance_margin: 500,
            opening_fee: 10,
            closing_fee: 20,
            privacy_fee: 5,
            protocol_fee_share: 3_000,
            last_updated: 42,
        }
    );
}

#[test]
fn initialize_works_once() {
    let mut c = config();
    let before = c.clone();
    assert_eq!(
        initialize(&mut c, ALICE, 254, 43, 1, 1, 1, 1, 1, 1, 1),
        Err(ErrorCode::ProgramAlreadyStarted)
    );
    assert_eq!(c, before);
}

#[test]
fn initialize_keeps_share_and_margin_within_the_whole() {
    let mut c = blank_config();
    assert_eq!(
        initialize(&mut c, ADMIN, 255, 42, 500_000, 100, 10_001, 10, 10, 5, 3_000),
        Err(ErrorCode::InvalidInput)
    );
    assert_eq!(
        initialize(&mut c, ADMIN, 255, 42, 500_000, 100, 500, 10, 10, 5, 10_001),
        Err(ErrorCode::InvalidInput)
    );
    assert_eq!(c, blank_config());
    assert_eq!(initialize(&mut c, ADMIN, 255, 42, 500_000, 100, 10_000, 10, 10, 5, 10_000), Ok(()));
    assert_eq!(c.maintainance_margin, 10_000);
    assert_eq!(c.protocol_fee_share, 10_000);
}

#[test]
fn register_gives_a_starting_balance() {
    let (trader, balance) = register(&config(), ALICE, 252, 253, String::from("USDC")).unwrap();
    assert_eq!(
        trader,
        Trader { owner: ALICE, bump: 252, privacy: false, position_count: 0, active_position: 0 }
    );
    assert_eq!(
        balance,
        TraderPoolDetail {
            owner: ALICE,
            bump: 253,
            token_mint: String::from("USDC"),
            balance: 100_000_000_000,
            locked_balance: 0,
        }
    );
    assert_eq!(STARTING_BALANCE, 100_000_000_000);
    assert_eq!(balance.available_balance(), 100_000_000_000);
}

#[test]
fn claim_adds_ten_thousand_dollars() {
    let mut v = venue();
    assert_eq!(claim_virtual_balance(&v.config, &mut v.balance), Ok(()));
    assert_eq!(v.balance.balance, 110_000_000_000);
    assert_eq!(v.balance.locked_balance, 0);
    assert_eq!(CLAIM_AMOUNT, 10_000_000_000);
}

#[test]
fn claim_that_does_not_fit_overflows() {
    let mut v = venue();
    v.balance.balance = u64::MAX - 9_999_999_999;
    let before = v.balance.clone();
    assert_eq!(claim_virtual_balance(&v.config, &mut v.balance), Err(ErrorCode::MathOverflow));
    assert_eq!(v.balance, before);
    v.balance.balance = u64::MAX - 10_000_000_000;
    assert_eq!(claim_virtual_balance(&v.config, &mut v.balance), Ok(()));
    assert_eq!(v.balance.balance, u64::MAX);
}

#[test]
fn create_pool_deposits_the_starting_liquidity() {
    let pool = create_pool(&config(), 251, String::from("USDC")).unwrap();
    assert_eq!(
        pool,
        Vault {
            bump: 251,
            is_paused: false,
            token_mint: String::from("USDC"),
            lp_deposit: 100_000_000_000_000,
            total_lp_shares: 0,
            accumulated_lp_fees: 0,
            trader_deposit: 0,
            trader_collateral: 0,
            total_borrowed: 0,
            accumulated_fees: 0,
            accumulated_liquidation_rewards: 0,
        }
    );
    assert_eq!(STARTING_LIQUIDITY, 100_000_000_000_000);
    assert_eq!(pool.available_liquidity(), 100_000_000_000_000);
}

#[test]
fn fund_pool_adds_a_million_dollars() {
    let mut v = venue();
    assert_eq!(fund_pool(&v.config, &mut v.pool), Ok(()));
    assert_eq!(v.pool.lp_deposit, 101_000_000_000_000);
    assert_eq!(FUNDING_AMOUNT, 1_000_000_000_000);
    v.pool.lp_deposit = u64::MAX;
    assert_eq!(fund_pool(&v.config, &mut v.pool), Err(ErrorCode::MathOverflow));
    assert_eq!(v.pool.lp_deposit, u64::MAX);
}

#[test]
fn open_market_starts_without_positions() {
    let market = open_market(&config(), 250, String::from("BTC/USD"), 8, String::from(BTC_USD));
    assert_eq!(
        market,
        Ok(Market {
            bump: 250,
            pair: String::from("BTC/USD"),
            decimals: 8,
            feed_id: String::from(BTC_USD),
            total_active_positions: 0,
            is_paused: false,
        })
    );
}

#[test]
fn paused_venue_refuses_every_operation() {
    let mut v = venue();
    let (market, pool, trader, balance) = v.records();
    let p = paused();
    assert_eq!(register(&p, ALICE, 1, 2, String::from("USDC")), Err(ErrorCode::ProgramPaused));
    assert_eq!(create_pool(&p, 1, String::from("USDC")), Err(ErrorCode::ProgramPaused));
    assert_eq!(
        open_market(&p, 1, String::from("BTC/USD"), 8, String::from(BTC_USD)),
        Err(ErrorCode::ProgramPaused)
    );
    assert_eq!(claim_virtual_balance(&p, &mut v.balance), Err(ErrorCode::ProgramPaused));
    assert_eq!(fund_pool(&p, &mut v.pool), Err(ErrorCode::ProgramPaused));
    assert_eq!(
        update_market(&p, &mut v.market, &ADMIN, Some(String::from("00"))),
        Err(ErrorCode::ProgramPaused)
    );
    v.config = p;
    assert_eq!(v.open_long(), Err(ErrorCode::ProgramPaused));
    assert_eq!(v.records(), (market, pool, trader, balance));
}

#[test]
fn update_market_changes_the_feed() {
    let mut v = venue();
    assert_eq!(update_market(&v.config, &mut v.market, &ADMIN, Some(String::from("abcd"))), Ok(()));
    assert_eq!(v.market.feed_id, "abcd");
    assert_eq!(v.market.pair, "BTC/USD");
    assert_eq!(update_market(&v.config, &mut v.market, &ADMIN, None), Ok(()));
    assert_eq!(v.market.feed_id, "abcd");
}

#[test]
fn update_market_is_for_the_administrator() {
    let mut v = venue();
    let before = v.market.clone();
    assert_eq!(
        update_market(&v.config, &mut v.market, &ALICE, Some(String::from("abcd"))),
        Err(ErrorCode::Unauthorized)
    );
    let mut almost = ADMIN;
    almost[31] = 8;
    assert_eq!(update_market(&v.config, &mut v.market, &almost, None), Err(ErrorCode::Unauthorized));
    assert_eq!(v.market, before);
}

#[test]
fn update_market_is_refused_while_the_market_is_paused() {
    let mut v = venue();
    v.market.is_paused = true;
    assert_eq!(
        update_market(&v.config, &mut v.market, &ALICE, Some(String::from("abcd"))),
        Err(ErrorCode::ProgramPaused)
    );
    assert_eq!(v.market.feed_id, BTC_USD);
}

#[test]
fn identities_are_compared_byte_by_byte() {
    assert!(same_identity(&ADMIN, &[7; 32]));
    assert!(!same_identity(&ADMIN, &ALICE));
    let mut other = ADMIN;
    other[0] = 0;
    assert!(!same_identity(&ADMIN, &other));
}

#[test]
fn free_balance_and_liquidity_never_underflow() {
    let mut v = venue();
    v.balance.balance = 5;
    v.balance.locked_balance = 7;
    assert_eq!(v.balance.available_balance(), 0);
    v.balance.locked_balance = 5;
    assert_eq!(v.balance.available_balance(), 0);
    v.balance.locked_balance = 2;
    assert_eq!(v.balance.available_balance(), 3);
    v.pool.lp_deposit = 0;
    v.pool.total_borrowed = u64::MAX;
    assert_eq!(v.pool.available_liquidity(), 0);
    v.pool.lp_deposit = u64::MAX;
    v.pool.total_borrowed = 1;
    assert_eq!(v.pool.available_liquidity(), u64::MAX - 1);
}

#[test]
fn open_long_position_moves_fee_collateral_and_loan() {
    let mut v = venue();
    let position = v.open_long().unwrap();
    assert_eq!(
        position,
        Position {
            bump: 254,
            owner: ALICE,
            entered_at: 100,
            closed_at: 0,
            last_funding_slot: 100,
            cumulative_funding_paid: 0,
            position_id: 0,
            is_long: true,
            pair: String::from("BTC/USD"),
            token_mint: String::from("USDC"),
            current_target_price: 55_000_000_000,
            desired_size: 100_000_000,
            desired_entry_price: 49_900_000_000,
            actual_entered_price: 50_000_000_000,
            collateral: 9_990_000_000,
            actual_size: 102_000_000,
            current_price: 50_000_000_000,
            position_value: 51_000_000_000,
            leverage: 51_051,
            last_updated: 100,
        }
    );
    assert_eq!(v.balance.balance, 99_990_000_000);
    assert_eq!(v.balance.locked_balance, 9_990_000_000);
    assert_eq!(v.balance.available_balance(), 90_000_000_000);
    assert_eq!(v.pool.accumulated_fees, 3_000_000);
    assert_eq!(v.pool.accumulated_lp_fees, 7_000_000);
    assert_eq!(v.pool.trader_collateral, 9_990_000_000);
    assert_eq!(v.pool.total_borrowed, 41_010_000_000);
    assert_eq!(v.pool.available_liquidity(), 99_958_990_000_000);
    assert_eq!(v.trader.position_count, 1);
    assert_eq!(v.trader.active_position, 1);
    assert_eq!(v.market.total_active_positions, 1);
}

#[test]
fn open_short_position_targets_a_lower_price() {
    let mut v = venue();
    let position = v
        .open(&btc_at(50_000), &tick(100), 0, 100_000_000, 50_100_000_000, 10_000_000_000, false)
        .unwrap();
    assert!(!position.is_long);
    assert_eq!(position.current_target_price, 45_000_000_000);
    assert_eq!(position.actual_size, 102_000_000);
    assert!(position.desired_entry_price > position.current_price);
    assert!(position.current_price > position.current_target_price);
}

#[test]
fn position_ids_follow_the_count_of_the_trader() {
    let mut v = venue();
    assert_eq!(v.open_long().unwrap().position_id, 0);
    assert_eq!(v.open_long().unwrap().position_id, 1);
    let before = v.records();
    for id in [0, 1, 3] {
        assert_eq!(
            v.open(&btc_at(50_000), &tick(100), id, 100_000_000, 49_900_000_000, 10_000_000_000, true),
            Err(ErrorCode::InvalidPositionId)
        );
    }
    assert_eq!(v.records(), before);
    assert_eq!(v.trader.position_count, 2);
    assert_eq!(v.market.total_active_positions, 2);
}

#[test]
fn open_position_checks_the_request_in_order() {
    let mut v = venue();
    let before = v.records();
    let p = btc_at(50_000);
    let t = tick(100);
    assert_eq!(v.open(&p, &t, 0, 0, 0, 9_999_999, true), Err(ErrorCode::CollateralTooLow));
    assert_eq!(v.open(&p, &t, 0, 0, 0, 1_000_000_000_001, true), Err(ErrorCode::CollateralTooHigh));
    assert_eq!(v.open(&p, &t, 0, 0, 0, 10_000_000, true), Err(ErrorCode::InvalidPositionSize));
    assert_eq!(v.open(&p, &t, 0, 1, 0, 10_000_000, true), Err(ErrorCode::InvalidPrice));
    assert_eq!(v.open(&p, &t, 0, 1, u64::MAX, 10_000_000, true), Err(ErrorCode::PriceTooHigh));
    assert_eq!(
        v.open(&p, &t, 0, 1, 49_900_000_000, 100_000_000_001, true),
        Err(ErrorCode::NotEnoughBalance)
    );
    assert_eq!(v.records(), before);
}

#[test]
fn locked_balance_does_not_back_a_second_position() {
    let mut v = venue();
    v.balance.balance = 15_000_000_000;
    v.open_long().unwrap();
    // $14,990 are left, $9,990 of them locked.
    assert_eq!(v.balance.available_balance(), 5_000_000_000);
    assert_eq!(v.open_long(), Err(ErrorCode::NotEnoughBalance));
}

#[test]
fn open_position_passes_on_the_verdict_on_the_price() {
    let mut v = venue();
    let before = v.records();
    let late = Clock { slot: 100, unix_timestamp: 1_061 };
    assert_eq!(
        v.open(&btc_at(50_000), &late, 0, 100_000_000, 49_900_000_000, 10_000_000_000, true),
        Err(ErrorCode::StalePrice)
    );
    let wide = PriceUpdate { conf: 100_000_000_000, ..btc_at(50_000) };
    assert_eq!(
        v.open(&wide, &tick(100), 0, 100_000_000, 49_900_000_000, 10_000_000_000, true),
        Err(ErrorCode::PriceConfidenceTooHigh)
    );
    let negative = PriceUpdate { price: -1, ..btc_at(50_000) };
    assert_eq!(
        v.open(&negative, &tick(100), 0, 100_000_000, 49_900_000_000, 10_000_000_000, true),
        Err(ErrorCode::InvalidPrice)
    );
    // A price that comes to less than a millionth of a dollar.
    let dust = PriceUpdate { price: 99, conf: 0, ..btc_at(50_000) };
    assert_eq!(
        v.open(&dust, &tick(100), 0, 100_000_000, 49_900_000_000, 10_000_000_000, true),
        Err(ErrorCode::InvalidPrice)
    );
    let unsafe_price = PriceUpdate { price: 92_233_720_368_547_759, exponent: -6, conf: 0, ..btc_at(1) };
    assert_eq!(
        v.open(&unsafe_price, &tick(100), 0, 100_000_000, 49_900_000_000, 10_000_000_000, true),
        Err(ErrorCode::PriceTooHigh)
    );
    v.market.feed_id = String::from("e62d");
    assert_eq!(
        v.open(&btc_at(50_000), &tick(100), 0, 100_000_000, 49_900_000_000, 10_000_000_000, true),
        Err(ErrorCode::Oracle(OracleError::FeedIdMustBe32Bytes))
    );
    v.market.feed_id = String::from(BTC_USD);
    assert_eq!(v.records(), before);
}

#[test]
fn open_position_needs_the_price_on_the_right_side_of_the_desired_entry() {
    let mut v = venue();
    let before = v.records();
    assert_eq!(
        v.open(&btc_at(50_000), &tick(100), 0, 100_000_000, 50_000_000_000, 10_000_000_000, true),
        Err(ErrorCode::InvalidPriceForLong)
    );
    assert_eq!(
        v.open(&btc_at(50_000), &tick(100), 0, 100_000_000, 50_000_000_000, 10_000_000_000, false),
        Err(ErrorCode::InvalidPriceForShort)
    );
    // At nine millionths of a dollar the long target, 10% up, truncates to the price itself.
    let tiny = PriceUpdate { price: 9, exponent: -6, conf: 0, ..btc_at(1) };
    assert_eq!(
        v.open(&tiny, &tick(100), 0, 1, 8, 10_000_000_000, true),
        Err(ErrorCode::InvalidTargetPrice)
    );
    assert_eq!(v.records(), before);
}

#[test]
fn one_token_on_a_thousand_dollars_is_refused_for_its_leverage() {
    let mut v = venue();
    let before = v.records();
    assert!(v.config.max_leverage <= 500_000);
    assert_eq!(
        v.open(&btc_at(50_000), &tick(100), 0, 100_000_000, 49_000_000000, 1_000_000000, true),
        Err(ErrorCode::ExcessiveLeverage)
    );
    assert_eq!(v.records(), before);
}

#[test]
fn position_over_the_cap_is_refused_for_its_leverage_whatever_its_value() {
    let mut v = venue();
    let before = v.records();
    // 200 tokens asked for at $49,000 on $1,000: worth $12,000,000, more than a position may be.
    assert_eq!(
        v.open(&btc_at(50_000), &tick(100), 0, 20_000_000_000, 49_000_000_000, 1_000_000_000, true),
        Err(ErrorCode::ExcessiveLeverage)
    );
    // A thousand tokens on $10,000: worth $51,000,000.
    assert_eq!(
        v.open(&btc_at(50_000), &tick(100), 0, 100_000_000_000, 49_900_000_000, 10_000_000_000, true),
        Err(ErrorCode::ExcessiveLeverage)
    );
    assert_eq!(v.records(), before);
    // Within the cap the value is what fails: 250 tokens on $1,000,000.
    v.balance.balance = 2_000_000_000_000;
    let before = v.records();
    assert_eq!(
        v.open(&btc_at(50_000), &tick(100), 0, 25_000_000_000, 49_900_000_000, 1_000_000_000_000, true),
        Err(ErrorCode::PositionValueTooHigh)
    );
    assert_eq!(v.records(), before);
}

#[test]
fn open_position_needs_liquidity_in_the_pool() {
    let mut v = venue();
    v.pool.lp_deposit = 41_009_999_999;
    let before = v.records();
    assert_eq!(v.open_long(), Err(ErrorCode::InsufficientLiquidity));
    assert_eq!(v.records(), before);
    v.pool.lp_deposit = 41_010_000_000;
    assert!(v.open_long().is_ok());
    assert_eq!(v.pool.available_liquidity(), 0);
}

#[test]
fn open_position_with_a_counter_at_its_end_changes_nothing() {
    let mut v = venue();
    v.pool.accumulated_lp_fees = u64::MAX - 6_999_999;
    let before = v.records();
    assert_eq!(v.open_long(), Err(ErrorCode::MathOverflow));
    assert_eq!(v.records(), before);
    v.pool.accumulated_lp_fees = 0;
    v.market.total_active_positions = u64::MAX;
    let before = v.records();
    assert_eq!(v.open_long(), Err(ErrorCode::MathOverflow));
    assert_eq!(v.records(), before);
}

#[test]
fn closing_at_once_returns_the_collateral_less_the_closing_fee() {
    let mut v = venue();
    let mut position = v.open_long().unwrap();
    let opened = v.balance.balance;
    assert_eq!(v.close(&mut position, &btc_at(50_000), &tick(100)), Ok(()));
    // Collateral $9,990, closing fee 10 bps of $51,000.
    assert_eq!(v.balance.balance - opened, 9_990_000_000 - 51_000_000);
    assert_eq!(v.balance.locked_balance, 0);
    assert_eq!(position.cumulative_funding_paid, 0);
    assert_eq!(position.closed_at, 100);
    assert_eq!(v.pool.total_borrowed, 0);
    assert_eq!(v.pool.trader_collateral, 0);
    assert_eq!(v.pool.accumulated_fees, 3_000_000 + 15_300_000);
    assert_eq!(v.pool.accumulated_lp_fees, 7_000_000 + 35_700_000);
    assert_eq!(v.trader.position_count, 1);
    assert_eq!(v.trader.active_position, 0);
    assert_eq!(v.market.total_active_positions, 0);
}

#[test]
fn closing_with_a_profit_pays_it_out_after_funding_and_fee() {
    let mut v = venue();
    let mut position = v.open_long().unwrap();
    assert_eq!(v.close(&mut position, &btc_at(52_000), &tick(7_300)), Ok(()));
    // Gain $2,040, funding $5.304 for a tenth of a period, fee $51.
    assert_eq!(position.cumulative_funding_paid, 5_304_000);
    assert_eq!(position.last_funding_slot, 7_300);
    assert_eq!(position.closed_at, 7_300);
    assert_eq!(v.balance.balance, 99_990_000_000 + 11_973_696_000);
    assert_eq!(v.balance.locked_balance, 0);
    assert_eq!(v.pool.total_borrowed, 0);
}

#[test]
fn closing_with_a_loss_takes_it_from_the_collateral() {
    let mut v = venue();
    let mut position = v.open_long().unwrap();
    assert_eq!(v.close(&mut position, &btc_at(48_000), &tick(100)), Ok(()));
    assert_eq!(v.balance.balance, 99_990_000_000 + 9_990_000_000 - 2_040_000_000 - 51_000_000);
}

#[test]
fn closing_with_a_total_loss_returns_nothing() {
    let mut v = venue();
    let mut position = v.open_long().unwrap();
    assert_eq!(v.close(&mut position, &btc_at(40_000), &tick(100)), Ok(()));
    assert_eq!(v.balance.balance, 99_990_000_000);
    assert_eq!(v.balance.locked_balance, 0);
    assert_eq!(v.pool.trader_collateral, 0);
}

#[test]
fn closed_position_cannot_be_closed_again() {
    let mut v = venue();
    let mut position = v.open_long().unwrap();
    v.close(&mut position, &btc_at(50_000), &tick(101)).unwrap();
    let before = (v.records(), position.clone());
    assert_eq!(
        v.close(&mut position, &btc_at(50_000), &tick(102)),
        Err(ErrorCode::PositionAlreadyClosed)
    );
    assert_eq!((v.records(), position), before);
}

#[test]
fn close_position_that_fails_changes_nothing() {
    let mut v = venue();
    let mut position = v.open_long().unwrap();
    let before = (v.records(), position.clone());
    let late = Clock { slot: 7_300, unix_timestamp: 2_000 };
    assert_eq!(v.close(&mut position, &btc_at(52_000), &late), Err(ErrorCode::StalePrice));
    v.pool.is_paused = true;
    assert_eq!(
        v.close(&mut position, &btc_at(52_000), &tick(7_300)),
        Err(ErrorCode::ProgramPaused)
    );
    v.pool.is_paused = false;
    v.market.is_paused = true;
    assert_eq!(
        v.close(&mut position, &btc_at(52_000), &tick(7_300)),
        Err(ErrorCode::ProgramPaused)
    );
    v.market.is_paused = false;
    // Funding is worked out before the counters are touched.
    v.market.total_active_positions = 0;
    let zeroed = (v.records(), position.clone());
    assert_eq!(
        v.close(&mut position, &btc_at(52_000), &tick(7_300)),
        Err(ErrorCode::MathOverflow)
    );
    assert_eq!((v.records(), position.clone()), zeroed);
    v.market.total_active_positions = 1;
    assert_eq!((v.records(), position), before);
}

#[test]
fn books_follow_the_positions() {
    let mut v = venue();
    let mut first = v.open_long().unwrap();
    let mut second = v
        .open(&btc_at(50_000), &tick(150), 1, 50_000_000, 50_100_000_000, 20_000_000_000, false)
        .unwrap();
    assert_eq!(v.market.total_active_positions, 2);
    assert_eq!(v.pool.trader_collateral, first.collateral + second.collateral);
    assert_eq!(v.balance.locked_balance, first.collateral + second.collateral);
    assert!(v.pool.total_borrowed <= v.pool.lp_deposit);
    assert!(v.balance.locked_balance <= v.balance.balance);

    v.close(&mut first, &btc_at(51_000), &tick(200)).unwrap();
    assert_ne!(first.closed_at, 0);
    assert_eq!(v.market.total_active_positions, 1);
    assert_eq!(v.pool.trader_collateral, second.collateral);
    assert_eq!(v.balance.locked_balance, second.collateral);
    assert_eq!(v.trader.active_position, 1);

    v.close(&mut second, &btc_at(51_000), &tick(300)).unwrap();
    assert_eq!(v.market.total_active_positions, 0);
    assert_eq!(v.pool.trader_collateral, 0);
    assert_eq!(v.pool.total_borrowed, 0);
    assert_eq!(v.balance.locked_balance, 0);
    assert_eq!(v.trader.active_position, 0);
    assert_eq!(v.trader.position_count, 2);
    assert!(v.trader.active_position <= v.trader.position_count);
}

#[test]
fn position_closed_at_tick_zero_still_reads_as_open() {
    let mut v = venue();
    let mut position = v
        .open(&btc_at(50_000), &tick(0), 0, 100_000_000, 49_900_000_000, 10_000_000_000, true)
        .unwrap();
    assert_eq!(v.close(&mut position, &btc_at(50_000), &tick(0)), Ok(()));
    assert_eq!(position.closed_at, 0);
    assert_eq!(v.market.total_active_positions, 0);
}
