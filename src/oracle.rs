use vstd::prelude::*;

verus! {

/// The fixed collateral price, in debt units with six decimals
/// (50,000 debt units per collateral unit).
pub const BTC_USD_PRICE: u64 = 50_000_000_000;

/// Reads the current price of one collateral unit, in debt units with six decimals.
pub fn get_btc_usd_price() -> (r: u64)
    ensures
        r == BTC_USD_PRICE,
{
    BTC_USD_PRICE
}

} // verus!
