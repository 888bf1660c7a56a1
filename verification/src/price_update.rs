//! Oracle prices: reading a posted price update and bringing its price to
//! six decimals.
//!
//! The oracle's own code decodes the feed id and decides whether an update
//! may be used; the two functions that call it are the only ones in this
//! library whose contracts are taken on trust. Everything after the call is
//! verified: the sign of the price, the width of its confidence interval and
//! the change of exponent.
use vstd::prelude::*;
use vstd::string::*;
use vstd::utf8::*;
use vstd::arithmetic::div_mod::{lemma_basic_div, lemma_div_nonincreasing, lemma_div_pos_is_pos};
use crate::math::{
    checked_product, checked_quotient, fits_u128, fits_u64, lemma_pow10_step, magnitude, pow10,
    power_of_ten,
};
use crate::{ErrorCode, BASIS_POINTS};
use pyth_solana_receiver_sdk::error::GetPriceError;
use pyth_solana_receiver_sdk::price_update::VerificationLevel as OracleLevel;
use pyth_solana_receiver_sdk::price_update::{get_feed_id_from_hex, PriceFeedMessage, PriceUpdateV2};

verus! {

/// Decimals of a price in this library.
pub const PRICE_DECIMALS: u32 = 6;

/// One USD at `PRICE_DECIMALS` decimals.
pub const PRICE_PRECISION: u64 = 1_000_000;

/// Widest confidence interval accepted, in basis points of the price.
pub const MAX_CONFIDENCE_BPS: u64 = 100;

/// Oldest price accepted, in seconds.
pub const MAX_PRICE_AGE_SECONDS: u64 = 60;

/// The rejections of the oracle's own code.
#[derive(Debug, Clone, Copy, PartialEq, Eq)]
pub enum OracleError {
    PriceTooOld,
    InvalidWindowSize,
    MismatchedFeedId,
    InsufficientVerificationLevel,
    FeedIdMustBe32Bytes,
    FeedIdNonHexCharacter,
}

/// How far the signatures behind a price update were checked.
#[derive(Debug, Clone, Copy, PartialEq, Eq)]
pub enum VerificationLevel {
    Partial { num_signatures: u8 },
    Full,
}

/// What a posted price update holds: the feed it belongs to, how far it was
/// verified, and the price message itself.
#[derive(Debug, Clone, Copy, PartialEq, Eq)]
pub struct PriceUpdate {
    pub verification_level: VerificationLevel,
    pub feed_id: [u8; 32],
    pub price: i64,
    pub conf: u64,
    pub exponent: i32,
    pub publish_time: i64,
}

/// A price as the oracle states it: `(price ± conf) * 10^exponent`, published
/// at `publish_time` (seconds).
#[derive(Debug, Clone, Copy, PartialEq, Eq)]
pub struct Price {
    pub price: i64,
    pub conf: u64,
    pub exponent: i32,
    pub publish_time: i64,
}

/// The clock of the ledger: the current tick and the wall-clock time in
/// seconds that goes with it.
#[derive(Debug, Clone, Copy, PartialEq, Eq)]
pub struct Clock {
    pub slot: u64,
    pub unix_timestamp: i64,
}

/// Value of one hex digit, upper or lower case.
pub open spec fn hex_digit_value(b: u8) -> Option<u8> {
    if 0x30 <= b <= 0x39 {
        Some((b - 0x30) as u8)
    } else if 0x61 <= b <= 0x66 {
        Some((b - 0x61 + 10) as u8)
    } else if 0x41 <= b <= 0x46 {
        Some((b - 0x41 + 10) as u8)
    } else {
        None
    }
}

/// Whether every byte of `digits` is a hex digit.
pub open spec fn all_hex_digits(digits: Seq<u8>) -> bool {
    forall|i: int| 0 <= i < digits.len() ==> hex_digit_value(#[trigger] digits[i]) is Some
}

/// The bytes that an even number of hex digits spell, two digits per byte,
/// high digit first.
pub open spec fn hex_decoded(digits: Seq<u8>) -> Seq<u8> {
    Seq::new(
        digits.len() / 2,
        |i: int|
            (16 * hex_digit_value(digits[2 * i]).unwrap() + hex_digit_value(
                digits[2 * i + 1],
            ).unwrap()) as u8,
    )
}

/// The feed id that a text of 64 hex digits spells, or of 66 bytes of which
/// the first two are skipped unread.
pub open spec fn feed_id_from_hex(text: Seq<u8>) -> Result<Seq<u8>, OracleError> {
    if text.len() != 64 && text.len() != 66 {
        Err(OracleError::FeedIdMustBe32Bytes)
    } else {
        let digits = if text.len() == 66 {
            text.skip(2)
        } else {
            text
        };
        if all_hex_digits(digits) {
            Ok(hex_decoded(digits))
        } else {
            Err(OracleError::FeedIdNonHexCharacter)
        }
    }
}

/// The price that an update yields for `feed_id` at time `now`: only a fully
/// verified update of that very feed, no older than `maximum_age` seconds.
pub open spec fn price_no_older_than(
    update: PriceUpdate,
    now: i64,
    maximum_age: u64,
    feed_id: Seq<u8>,
) -> Option<Price> {
    if update.verification_level is Full && update.feed_id@ == feed_id && update.publish_time
        + maximum_age >= now {
        Some(
            Price {
                price: update.price,
                conf: update.conf,
                exponent: update.exponent,
                publish_time: update.publish_time,
            },
        )
    } else {
        None
    }
}

/// Calls `pyth_solana_receiver_sdk::price_update::get_feed_id_from_hex`.
///
/// Trusted: the call rejects a text whose length in bytes is neither 64 nor
/// 66 with `FeedIdMustBe32Bytes`, drops the first two bytes of a text of 66
/// without looking at them, rejects any byte that is no hex digit with
/// `FeedIdNonHexCharacter`, and otherwise returns the 32 bytes that the 64
/// digits spell. It slices a text of 66 bytes at byte 2, which must
/// therefore start a character.
#[verifier::external_body]
fn decode_feed_id(input: &str) -> (r: Result<[u8; 32], OracleError>)
    requires
        input.spec_bytes().len() == 66 ==> is_char_boundary(input.spec_bytes(), 2),
    ensures
        match feed_id_from_hex(input.spec_bytes()) {
            Ok(id) => r is Ok && r.unwrap()@ == id,
            Err(e) => r == Err::<[u8; 32], OracleError>(e),
        },
{
    match get_feed_id_from_hex(input) {
        Ok(id) => Ok(id),
        Err(GetPriceError::PriceTooOld) => Err(OracleError::PriceTooOld),
        Err(GetPriceError::InvalidWindowSize) => Err(OracleError::InvalidWindowSize),
        Err(GetPriceError::MismatchedFeedId) => Err(OracleError::MismatchedFeedId),
        Err(GetPriceError::InsufficientVerificationLevel) => {
            Err(OracleError::InsufficientVerificationLevel)
        },
        Err(GetPriceError::FeedIdMustBe32Bytes) => Err(OracleError::FeedIdMustBe32Bytes),
        Err(GetPriceError::FeedIdNonHexCharacter) => Err(OracleError::FeedIdNonHexCharacter),
    }
}

/// Calls `PriceUpdateV2::get_price_no_older_than` of
/// `pyth_solana_receiver_sdk` on an account that holds what `update` holds,
/// with a clock that shows `now`.
///
/// Trusted: the call yields the price of the update's message, unchanged,
/// when the update is fully verified, belongs to `feed_id` and was published
/// no more than `maximum_age` seconds before `now`; otherwise it fails. It
/// converts `maximum_age` to a signed 64-bit number, which must fit.
#[verifier::external_body]
fn read_price_no_older_than(
    update: &PriceUpdate,
    now: i64,
    maximum_age: u64,
    feed_id: &[u8; 32],
) -> (r: Option<Price>)
    requires
        maximum_age <= i64::MAX,
    ensures
        r == price_no_older_than(*update, now, maximum_age, feed_id@),
{
    let verification_level = match update.verification_level {
        VerificationLevel::Full => OracleLevel::Full,
        VerificationLevel::Partial { num_signatures } => OracleLevel::Partial { num_signatures },
    };
    let price_message = PriceFeedMessage {
        feed_id: update.feed_id, price: update.price, conf: update.conf, exponent: update.exponent,
        publish_time: update.publish_time, prev_publish_time: 0, ema_price: 0, ema_conf: 0,
    };
    let write_authority = Default::default();
    let account = PriceUpdateV2 { write_authority, verification_level, price_message, posted_slot: 0 };
    let clock = anchor_lang::prelude::Clock { unix_timestamp: now, ..Default::default() };
    let p = account.get_price_no_older_than(&clock, maximum_age, feed_id).ok()?;
    Some(Price { price: p.price, conf: p.conf, exponent: p.exponent, publish_time: p.publish_time })
}

/// The price of `update` for the feed that `feed_text` names, at six
/// decimals, as seen at `clock`.
pub open spec fn normalized_price(update: PriceUpdate, feed_text: Seq<u8>, clock: Clock) -> Result<
    u64,
    ErrorCode,
> {
    match feed_id_from_hex(feed_text) {
        Err(e) => Err(ErrorCode::Oracle(e)),
        Ok(id) => match price_no_older_than(
            update,
            clock.unix_timestamp,
            MAX_PRICE_AGE_SECONDS,
            id,
        ) {
            None => Err(ErrorCode::StalePrice),
            Some(price) => if price.price <= 0 {
                Err(ErrorCode::InvalidPrice)
            } else if confidence_checked(price) is Err {
                Err(confidence_checked(price)->Err_0)
            } else {
                price_at_protocol_precision(price.price, price.exponent)
            },
        },
    }
}

/// Width of the confidence interval in basis points of the price, truncated.
pub open spec fn confidence_bps(price: Price) -> int {
    let size = if price.price >= 0 {
        price.price as int
    } else {
        -(price.price as int)
    };
    (price.conf * BASIS_POINTS) as int / size
}

/// The verdict on a price's confidence interval.
pub open spec fn confidence_checked(price: Price) -> Result<(), ErrorCode> {
    if price.price == 0 {
        Err(ErrorCode::MathOverflow)
    } else if confidence_bps(price) > MAX_CONFIDENCE_BPS {
        Err(ErrorCode::PriceConfidenceTooHigh)
    } else {
        Ok(())
    }
}

/// `price * 10^exponent` at six decimals: `price * 10^(6 + exponent)`,
/// truncated where the power is negative.
pub open spec fn price_at_protocol_precision(price: i64, exponent: i32) -> Result<u64, ErrorCode> {
    let shift = PRICE_DECIMALS + exponent;
    if shift >= 0 {
        let scaled = price * pow10(shift as nat);
        if !fits_u128(scaled) {
            Err(ErrorCode::MathOverflow)
        } else if !fits_u64(scaled) {
            Err(ErrorCode::PriceOverflow)
        } else {
            Ok(scaled as u64)
        }
    } else {
        Ok((price as int / pow10((-shift) as nat)) as u64)
    }
}

/// Reads the price of `feed_id` from `price_update` and brings it to six
/// decimals.
///
/// Rejects a malformed feed id with the oracle's own error, an update that
/// is partially verified, of another feed or older than
/// `MAX_PRICE_AGE_SECONDS` with `StalePrice`, a price that is not positive
/// with `InvalidPrice`, and a confidence interval wider than
/// `MAX_CONFIDENCE_BPS` with `PriceConfidenceTooHigh`.
pub fn get_normalized_price(price_update: &PriceUpdate, feed_id: &str, clock: &Clock) -> (r: Result<
    u64,
    ErrorCode,
>)
    ensures
        r == normalized_price(*price_update, feed_id.spec_bytes(), *clock),
{
    if feed_id.as_bytes().len() == 66 && !feed_id.is_char_boundary(2) {
        proof {
            lemma_split_character_is_no_digit(feed_id@);
        }
        return Err(ErrorCode::Oracle(OracleError::FeedIdNonHexCharacter));
    }
    let id = match decode_feed_id(feed_id) {
        Ok(id) => id,
        Err(e) => {
            return Err(ErrorCode::Oracle(e));
        },
    };
    let price_data = match read_price_no_older_than(
        price_update,
        clock.unix_timestamp,
        MAX_PRICE_AGE_SECONDS,
        &id,
    ) {
        Some(p) => p,
        None => {
            return Err(ErrorCode::StalePrice);
        },
    };
    if price_data.price <= 0 {
        return Err(ErrorCode::InvalidPrice);
    }
    validate_confidence(&price_data)?;
    normalize_price_to_protocol_precision(&price_data)
}

/// Accepts a price whose confidence interval is at most
/// `MAX_CONFIDENCE_BPS` basis points of its size.
pub fn validate_confidence(price_data: &Price) -> (r: Result<(), ErrorCode>)
    ensures
        r == confidence_checked(*price_data),
{
    let price_abs = magnitude(price_data.price);
    let scaled = checked_product(price_data.conf as u128, BASIS_POINTS)?;
    let bps = checked_quotient(scaled, price_abs as u128)?;
    if bps > MAX_CONFIDENCE_BPS as u128 {
        return Err(ErrorCode::PriceConfidenceTooHigh);
    }
    Ok(())
}

/// Brings a positive oracle price to six decimals.
pub fn normalize_price_to_protocol_precision(price_data: &Price) -> (r: Result<u64, ErrorCode>)
    requires
        price_data.price > 0,
    ensures
        r == price_at_protocol_precision(price_data.price, price_data.exponent),
{
    let price_raw = price_data.price as u128;
    let exponent_diff: i64 = PRICE_DECIMALS as i64 + price_data.exponent as i64;
    if exponent_diff >= 0 {
        let exp = exponent_diff as u32;
        proof {
            lemma_pow10_step(exp as nat);
        }
        let multiplier = match power_of_ten(exp) {
            Ok(m) => m,
            Err(e) => {
                proof {
                    lemma_product_grows(price_raw as int, pow10(exp as nat));
                }
                return Err(e);
            },
        };
        let scaled = checked_product(price_raw, multiplier)?;
        if scaled > u64::MAX as u128 {
            return Err(ErrorCode::PriceOverflow);
        }
        Ok(scaled as u64)
    } else {
        let exp = (-exponent_diff) as u32;
        proof {
            lemma_pow10_step(exp as nat);
        }
        match power_of_ten(exp) {
            Ok(divisor) => {
                proof {
                    lemma_div_nonincreasing(price_raw as int, divisor as int);
                    lemma_div_pos_is_pos(price_raw as int, divisor as int);
                }
                Ok((price_raw / divisor) as u64)
            },
            Err(_) => {
                proof {
                    lemma_basic_div(price_raw as int, pow10(exp as nat));
                }
                Ok(0)
            },
        }
    }
}

/// A product is at least its second factor when the first is at least one.
proof fn lemma_product_grows(a: int, b: int)
    requires
        1 <= a,
        0 <= b,
    ensures
        a * b >= b,
{
    assert(a * b >= b) by (nonlinear_arith)
        requires
            1 <= a,
            0 <= b,
    ;
}

/// A text of 66 bytes that byte 2 splits a character of has a byte after its
/// first two that is no hex digit.
proof fn lemma_split_character_is_no_digit(text: Seq<char>)
    requires
        encode_utf8(text).len() == 66,
        !is_char_boundary(encode_utf8(text), 2),
    ensures
        feed_id_from_hex(encode_utf8(text)) == Err::<Seq<u8>, OracleError>(
            OracleError::FeedIdNonHexCharacter,
        ),
{
    let bytes = encode_utf8(text);
    encode_utf8_valid_utf8(text);
    is_char_boundary_iff_not_is_continuation_byte(bytes, 2);
    let digits = bytes.skip(2);
    assert(digits[0] == bytes[2]);
    assert(hex_digit_value(digits[0]) is None);
}

} // verus!
