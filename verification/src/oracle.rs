//! Oracle price derivation: turns a raw feed record into an exact decimal
//! price, rejecting invalid or stale feeds, and derives conservative
//! cross-rates from pairs of feeds. Also reads the per-market trailing
//! volume that venue selection relies on.

use vstd::prelude::*;

use crate::error::LucraErrorCode;
use crate::price::{pow10, Price};

verus! {

/// A feed checkpoint older than this many slots is stale.
pub const ORACLE_PRICE_MAX_SLOTS: u64 = 25;

/// The only feed status accepted for pricing.
pub const ORACLE_STATUS_VALID: u8 = 1;

/// Byte length a raw oracle record must have.
pub const ORACLE_DATA_LEN: usize = 11_223;

/// Offset of the little-endian price mantissa in a raw oracle record.
pub const ORACLE_PRICE_OFFSET: usize = 11_097;

/// Offset of the little-endian last-valid slot in a raw oracle record.
pub const ORACLE_VALID_SLOT_OFFSET: usize = 11_105;

/// Offset of the price exponent byte in a raw oracle record.
pub const ORACLE_EXPO_OFFSET: usize = 72;

/// Offset of the status byte in a raw oracle record.
pub const ORACLE_STATUS_OFFSET: usize = 11_222;

/// One raw feed record: `mantissa / 10^expo` at checkpoint `valid_slot`.
#[derive(Clone, Copy, Debug, PartialEq, Eq, Structural)]
pub struct OracleFeed {
    pub price: u64,
    pub expo: u8,
    pub valid_slot: u64,
    pub status: u8,
}

impl OracleFeed {
    /// The exact decimal price this feed encodes.
    pub open spec fn spec_price(self) -> Price {
        Price { num: self.price as u128, den: pow10(self.expo as nat) as u128 }
    }

    /// Whether `calc_oracle_price` accepts this feed at `current_slot`.
    pub open spec fn spec_accepted(self, current_slot: u64) -> bool {
        self.status == ORACLE_STATUS_VALID && self.valid_slot + ORACLE_PRICE_MAX_SLOTS
            >= current_slot && self.expo <= 38
    }
}

/// The error a rejected feed is refused with: an invalid status before a
/// stale checkpoint, and `MathError` for an exponent beyond what a 128-bit
/// denominator can hold.
pub open spec fn spec_feed_error(f: OracleFeed, current_slot: u64) -> LucraErrorCode {
    if f.status != ORACLE_STATUS_VALID {
        LucraErrorCode::OracleStatusNotValid
    } else if f.valid_slot + ORACLE_PRICE_MAX_SLOTS < current_slot {
        LucraErrorCode::OracleStale
    } else {
        LucraErrorCode::MathError
    }
}

/// The exact decimal `price / 10^expo`.
pub fn get_price(price: u64, expo: u8) -> (r: Result<Price, LucraErrorCode>)
    ensures
        r is Ok <==> expo <= 38,
        r is Ok ==> r->Ok_0.wf() && r->Ok_0.num == price && r->Ok_0.den == pow10(expo as nat),
        r is Err ==> r->Err_0 == LucraErrorCode::MathError,
{
    Price::from_scaled(price, expo)
}

/// Gate a raw feed: `OracleStatusNotValid` unless the status byte is the
/// valid marker, `OracleStale` when the checkpoint is too old, otherwise
/// the exact decimal price.
pub fn calc_oracle_price(price: u64, expo: u8, valid_slot: u64, status: u8, current_slot: u64) -> (
    r: Result<Price, LucraErrorCode>)
    ensures
        status != ORACLE_STATUS_VALID <==> r == Err::<Price, _>(
            LucraErrorCode::OracleStatusNotValid,
        ),
        status == ORACLE_STATUS_VALID && valid_slot + ORACLE_PRICE_MAX_SLOTS < current_slot <==> r
            == Err::<Price, _>(LucraErrorCode::OracleStale),
        r is Ok <==> (OracleFeed { price, expo, valid_slot, status }).spec_accepted(current_slot),
        r is Ok ==> r->Ok_0 == (OracleFeed { price, expo, valid_slot, status }).spec_price()
            && r->Ok_0.wf(),
        r is Err ==> r->Err_0 == spec_feed_error(
            OracleFeed { price, expo, valid_slot, status },
            current_slot,
        ),
{
    if status != ORACLE_STATUS_VALID {
        return Err(LucraErrorCode::OracleStatusNotValid);
    }
    if (valid_slot as u128) + (ORACLE_PRICE_MAX_SLOTS as u128) < current_slot as u128 {
        return Err(LucraErrorCode::OracleStale);
    }
    get_price(price, expo)
}

/// Gate a whole feed record.
pub fn feed_price(feed: &OracleFeed, current_slot: u64) -> (r: Result<Price, LucraErrorCode>)
    ensures
        r is Ok <==> feed.spec_accepted(current_slot),
        r is Ok ==> r->Ok_0 == feed.spec_price() && r->Ok_0.wf(),
        feed.status != ORACLE_STATUS_VALID <==> r == Err::<Price, _>(
            LucraErrorCode::OracleStatusNotValid,
        ),
        feed.status == ORACLE_STATUS_VALID && feed.valid_slot + ORACLE_PRICE_MAX_SLOTS
            < current_slot <==> r == Err::<Price, _>(LucraErrorCode::OracleStale),
        r is Err ==> r->Err_0 == spec_feed_error(*feed, current_slot),
{
    calc_oracle_price(feed.price, feed.expo, feed.valid_slot, feed.status, current_slot)
}

/// The conservative native-coin price: the lower of the two quote feeds,
/// so a single manipulated quote cannot inflate collateral value.
pub fn get_sol_price(sol_usdc: &OracleFeed, sol_usdt: &OracleFeed, current_slot: u64) -> (r: Result<
    Price,
    LucraErrorCode,
>)
    ensures
        r is Ok <==> sol_usdc.spec_accepted(current_slot) && sol_usdt.spec_accepted(current_slot),
        r is Ok ==> r->Ok_0.wf() && r->Ok_0 == (if sol_usdt.spec_price().spec_lt(
            sol_usdc.spec_price(),
        ) {
            sol_usdt.spec_price()
        } else {
            sol_usdc.spec_price()
        }),
        !sol_usdc.spec_accepted(current_slot) ==> r == Err::<Price, _>(
            spec_feed_error(*sol_usdc, current_slot),
        ),
        sol_usdc.spec_accepted(current_slot) && !sol_usdt.spec_accepted(current_slot) ==> r
            == Err::<Price, _>(spec_feed_error(*sol_usdt, current_slot)),
{
    let usdc_price = feed_price(sol_usdc, current_slot)?;
    let usdt_price = feed_price(sol_usdt, current_slot)?;
    if usdt_price.lt(&usdc_price) {
        Ok(usdt_price)
    } else {
        Ok(usdc_price)
    }
}

/// The governance-token dollar price, chained through the native coin:
/// exactly `lucra_sol * sol_usd`. A zero native-coin price cannot be
/// inverted mid-chain and is a `MathError`, as is a product beyond the
/// 128-bit word.
pub fn get_lucra_price(
    lucra_sol: &OracleFeed,
    sol_usdc: &OracleFeed,
    sol_usdt: &OracleFeed,
    current_slot: u64,
) -> (r: Result<Price, LucraErrorCode>)
    ensures
        ({
            let sol_usd = if sol_usdt.spec_price().spec_lt(sol_usdc.spec_price()) {
                sol_usdt.spec_price()
            } else {
                sol_usdc.spec_price()
            };
            let accepted = lucra_sol.spec_accepted(current_slot) && sol_usdc.spec_accepted(
                current_slot,
            ) && sol_usdt.spec_accepted(current_slot);
            &&& (r is Ok <==> accepted && sol_usd.num >= 1 && lucra_sol.spec_price().num
                * sol_usd.num <= u128::MAX && lucra_sol.spec_price().den * sol_usd.den
                <= u128::MAX)
            &&& (r is Ok ==> r->Ok_0.wf() && r->Ok_0.num == lucra_sol.spec_price().num
                * sol_usd.num && r->Ok_0.den == lucra_sol.spec_price().den * sol_usd.den)
            &&& (!lucra_sol.spec_accepted(current_slot) ==> r == Err::<Price, _>(
                spec_feed_error(*lucra_sol, current_slot),
            ))
            &&& (lucra_sol.spec_accepted(current_slot) && !sol_usdc.spec_accepted(current_slot)
                ==> r == Err::<Price, _>(spec_feed_error(*sol_usdc, current_slot)))
            &&& (lucra_sol.spec_accepted(current_slot) && sol_usdc.spec_accepted(current_slot)
                && !sol_usdt.spec_accepted(current_slot) ==> r == Err::<Price, _>(
                spec_feed_error(*sol_usdt, current_slot),
            ))
            &&& (accepted && r is Err ==> r->Err_0 == LucraErrorCode::MathError)
        }),
{
    let lucra_sol_price = feed_price(lucra_sol, current_slot)?;
    let sol_usd_price = get_sol_price(sol_usdc, sol_usdt, current_slot)?;
    if sol_usd_price.num == 0 {
        return Err(LucraErrorCode::MathError);
    }
    lucra_sol_price.mul(&sol_usd_price)
}

/// The synthetic-asset dollar price: exactly `sol_usd / sol_mata`. A zero
/// base feed is a `MathError`.
pub fn get_mata_price(
    sol_mata: &OracleFeed,
    sol_usdc: &OracleFeed,
    sol_usdt: &OracleFeed,
    current_slot: u64,
) -> (r: Result<Price, LucraErrorCode>)
    ensures
        ({
            let sol_usd = if sol_usdt.spec_price().spec_lt(sol_usdc.spec_price()) {
                sol_usdt.spec_price()
            } else {
                sol_usdc.spec_price()
            };
            let accepted = sol_mata.spec_accepted(current_slot) && sol_usdc.spec_accepted(
                current_slot,
            ) && sol_usdt.spec_accepted(current_slot);
            &&& (r is Ok <==> accepted && sol_mata.spec_price().num >= 1 && sol_usd.num
                * sol_mata.spec_price().den <= u128::MAX && sol_usd.den
                * sol_mata.spec_price().num <= u128::MAX)
            &&& (r is Ok ==> r->Ok_0.wf() && r->Ok_0.num == sol_usd.num
                * sol_mata.spec_price().den && r->Ok_0.den == sol_usd.den
                * sol_mata.spec_price().num)
            &&& (!sol_mata.spec_accepted(current_slot) ==> r == Err::<Price, _>(
                spec_feed_error(*sol_mata, current_slot),
            ))
            &&& (sol_mata.spec_accepted(current_slot) && !sol_usdc.spec_accepted(current_slot)
                ==> r == Err::<Price, _>(spec_feed_error(*sol_usdc, current_slot)))
            &&& (sol_mata.spec_accepted(current_slot) && sol_usdc.spec_accepted(current_slot)
                && !sol_usdt.spec_accepted(current_slot) ==> r == Err::<Price, _>(
                spec_feed_error(*sol_usdt, current_slot),
            ))
            &&& (accepted && r is Err ==> r->Err_0 == LucraErrorCode::MathError)
        }),
{
    let sol_mata_price = feed_price(sol_mata, current_slot)?;
    let sol_usd_price = get_sol_price(sol_usdc, sol_usdt, current_slot)?;
    sol_usd_price.div(&sol_mata_price)
}

/// The little-endian 64-bit integer held at `s[i..i+8]`.
pub open spec fn spec_le_u64(s: Seq<u8>, i: int) -> int {
    s[i] + 256 * (s[i + 1] + 256 * (s[i + 2] + 256 * (s[i + 3] + 256 * (s[i + 4] + 256 * (s[i + 5]
        + 256 * (s[i + 6] + 256 * s[i + 7]))))))
}

/// Read a little-endian 64-bit integer out of a raw record.
pub fn le_u64_at(data: &[u8], i: usize) -> (r: u64)
    requires
        i + 8 <= data@.len(),
    ensures
        r == spec_le_u64(data@, i as int),
{
    let b0 = data[i] as u64;
    let b1 = data[i + 1] as u64;
    let b2 = data[i + 2] as u64;
    let b3 = data[i + 3] as u64;
    let b4 = data[i + 4] as u64;
    let b5 = data[i + 5] as u64;
    let b6 = data[i + 6] as u64;
    let b7 = data[i + 7] as u64;
    b0 + 256 * (b1 + 256 * (b2 + 256 * (b3 + 256 * (b4 + 256 * (b5 + 256 * (b6 + 256 * b7))))))
}

/// Decode the fields of a raw oracle record. A record of the wrong size is
/// rejected rather than read out of bounds.
pub fn parse_oracle_feed(data: &[u8]) -> (r: Result<OracleFeed, LucraErrorCode>)
    ensures
        r is Ok <==> data@.len() == ORACLE_DATA_LEN,
        r is Ok ==> ({
            let f = r->Ok_0;
            f.price == spec_le_u64(data@, ORACLE_PRICE_OFFSET as int) && f.valid_slot
                == spec_le_u64(data@, ORACLE_VALID_SLOT_OFFSET as int) && f.expo
                == data@[ORACLE_EXPO_OFFSET as int] && f.status
                == data@[ORACLE_STATUS_OFFSET as int]
        }),
        r is Err ==> r->Err_0 == LucraErrorCode::InvalidAccountInput,
{
    if data.len() != ORACLE_DATA_LEN {
        return Err(LucraErrorCode::InvalidAccountInput);
    }
    let price = le_u64_at(data, ORACLE_PRICE_OFFSET);
    let valid_slot = le_u64_at(data, ORACLE_VALID_SLOT_OFFSET);
    let expo = data[ORACLE_EXPO_OFFSET];
    let status = data[ORACLE_STATUS_OFFSET];
    Ok(OracleFeed { price, expo, valid_slot, status })
}

/// The feed record a well-sized raw oracle record holds.
pub open spec fn spec_parsed_feed(data: Seq<u8>) -> OracleFeed {
    OracleFeed {
        price: spec_le_u64(data, ORACLE_PRICE_OFFSET as int) as u64,
        expo: data[ORACLE_EXPO_OFFSET as int],
        valid_slot: spec_le_u64(data, ORACLE_VALID_SLOT_OFFSET as int) as u64,
        status: data[ORACLE_STATUS_OFFSET as int],
    }
}

/// Gate and price a raw oracle record in one step.
pub fn get_oracle_price(data: &[u8], current_slot: u64) -> (r: Result<Price, LucraErrorCode>)
    ensures
        data@.len() != ORACLE_DATA_LEN ==> r == Err::<Price, _>(LucraErrorCode::InvalidAccountInput),
        r is Ok <==> data@.len() == ORACLE_DATA_LEN && spec_parsed_feed(data@).spec_accepted(
            current_slot,
        ),
        r is Ok ==> r->Ok_0 == spec_parsed_feed(data@).spec_price() && r->Ok_0.wf(),
        data@.len() == ORACLE_DATA_LEN && r is Err ==> r->Err_0 == spec_feed_error(
            spec_parsed_feed(data@),
            current_slot,
        ),
{
    let feed = parse_oracle_feed(data)?;
    proof {
        assert(spec_le_u64(data@, ORACLE_PRICE_OFFSET as int) <= u64::MAX);
        assert(spec_le_u64(data@, ORACLE_VALID_SLOT_OFFSET as int) <= u64::MAX);
        assert(feed == spec_parsed_feed(data@));
    }
    feed_price(&feed, current_slot)
}

/// Trailing volume of one listed market.
#[derive(Clone, Copy, Debug, PartialEq, Eq, Structural)]
pub struct PriceSource {
    pub market: u64,
    pub volume: u64,
}

/// The slice of an oracle record that venue selection reads: each listed
/// market with its trailing volume.
pub struct Oracle {
    pub sources: Vec<PriceSource>,
}

/// The volume of the first source listed for `market`, if any.
pub open spec fn spec_find_volume(sources: Seq<PriceSource>, market: u64) -> Option<u64>
    decreases sources.len(),
{
    if sources.len() == 0 {
        None
    } else if sources[0].market == market {
        Some(sources[0].volume)
    } else {
        spec_find_volume(sources.drop_first(), market)
    }
}

/// The trailing volume the oracle lists for `market`; an unlisted market is
/// rejected as `InvalidAccountInput`.
pub fn get_volume(oracle: &Oracle, market: u64) -> (r: Result<u64, LucraErrorCode>)
    ensures
        r is Ok <==> spec_find_volume(oracle.sources@, market) is Some,
        r is Ok ==> Some(r->Ok_0) == spec_find_volume(oracle.sources@, market),
        r is Err ==> r->Err_0 == LucraErrorCode::InvalidAccountInput,
{
    let n = oracle.sources.len();
    let mut i: usize = 0;
    proof {
        assert(oracle.sources@.skip(0) =~= oracle.sources@);
    }
    while i < n
        invariant
            i <= n == oracle.sources@.len(),
            spec_find_volume(oracle.sources@, market) == spec_find_volume(
                oracle.sources@.skip(i as int),
                market,
            ),
        decreases n - i,
    {
        let src = oracle.sources[i];
        proof {
            assert(oracle.sources@.skip(i as int)[0] == oracle.sources@[i as int]);
            assert(oracle.sources@.skip(i as int).drop_first() =~= oracle.sources@.skip(
                i as int + 1,
            ));
        }
        if src.market == market {
            return Ok(src.volume);
        }
        i = i + 1;
    }
    proof {
        assert(oracle.sources@.skip(n as int).len() == 0);
    }
    Err(LucraErrorCode::InvalidAccountInput)
}

/// Accept only when the first venue's market has at least the volume of the
/// second venue's market: routing through the thinner pool is refused.
pub fn verify_orca_has_more_volume(oracle: &Oracle, raydium_market: u64, orca_market: u64) -> (r:
    Result<(), LucraErrorCode>)
    ensures
        r is Ok <==> spec_find_volume(oracle.sources@, raydium_market) is Some && spec_find_volume(
            oracle.sources@,
            orca_market,
        ) is Some && spec_find_volume(oracle.sources@, orca_market)->0 >= spec_find_volume(
            oracle.sources@,
            raydium_market,
        )->0,
        r is Err ==> r->Err_0 == (if spec_find_volume(oracle.sources@, raydium_market) is None
            || spec_find_volume(oracle.sources@, orca_market) is None {
            LucraErrorCode::InvalidAccountInput
        } else {
            LucraErrorCode::InvalidAmount
        }),
{
    let raydium_vol = get_volume(oracle, raydium_market)?;
    let orca_vol = get_volume(oracle, orca_market)?;
    if orca_vol >= raydium_vol {
        Ok(())
    } else {
        Err(LucraErrorCode::InvalidAmount)
    }
}

/// Mirror of `verify_orca_has_more_volume` for the other venue.
pub fn verify_raydium_has_more_volume(oracle: &Oracle, raydium_market: u64, orca_market: u64) -> (
    r: Result<(), LucraErrorCode>)
    ensures
        r is Ok <==> spec_find_volume(oracle.sources@, raydium_market) is Some && spec_find_volume(
            oracle.sources@,
            orca_market,
        ) is Some && spec_find_volume(oracle.sources@, raydium_market)->0 >= spec_find_volume(
            oracle.sources@,
            orca_market,
        )->0,
        r is Err ==> r->Err_0 == (if spec_find_volume(oracle.sources@, raydium_market) is None
            || spec_find_volume(oracle.sources@, orca_market) is None {
            LucraErrorCode::InvalidAccountInput
        } else {
            LucraErrorCode::InvalidAmount
        }),
{
    let raydium_vol = get_volume(oracle, raydium_market)?;
    let orca_vol = get_volume(oracle, orca_market)?;
    if raydium_vol >= orca_vol {
        Ok(())
    } else {
        Err(LucraErrorCode::InvalidAmount)
    }
}

/// Which venue carries more volume, without rejecting either.
pub fn check_raydium_has_more_volume(oracle: &Oracle, raydium_market: u64, orca_market: u64) -> (r:
    Result<bool, LucraErrorCode>)
    ensures
        r is Ok <==> spec_find_volume(oracle.sources@, raydium_market) is Some && spec_find_volume(
            oracle.sources@,
            orca_market,
        ) is Some,
        r is Ok ==> r->Ok_0 == (spec_find_volume(oracle.sources@, raydium_market)->0
            >= spec_find_volume(oracle.sources@, orca_market)->0),
        r is Err ==> r->Err_0 == LucraErrorCode::InvalidAccountInput,
{
    let raydium_vol = get_volume(oracle, raydium_market)?;
    let orca_vol = get_volume(oracle, orca_market)?;
    Ok(raydium_vol >= orca_vol)
}

} // verus!
