use vstd::prelude::*;
use crate::curve::UnitPrice;
use crate::decimal::{decimal_of, parse_decimal};
use crate::error::CurveError;

verus! {

pub type DurationSec = u32;

pub type AssetId = String;

/// A price quoted by the oracle: `multiplier / 10^decimals` currency units
/// for one smallest unit of the asset, the multiplier written in decimal.
#[derive(Debug, Clone)]
pub struct Price {
    pub multiplier: String,
    pub decimals: u8,
}

/// The oracle's price of one asset, if it has one.
#[derive(Debug, Clone)]
pub struct AssetOptionalPrice {
    pub asset_id: AssetId,
    pub price: Option<Price>,
}

/// An answer of the price oracle.
#[derive(Debug, Clone)]
pub struct PriceData {
    pub timestamp: String,
    pub recency_duration_sec: DurationSec,
    pub prices: Vec<AssetOptionalPrice>,
}

/// A price oracle: answers with the prices of the assets asked for, all of
/// them where `asset_ids` is `None`.
pub trait Oracle {
    fn get_price_data(&self, asset_ids: Option<Vec<AssetId>>) -> PriceData;
}

/// The unit price a quoted price stands for, if its multiplier is a decimal
/// `u128`.
pub open spec fn unit_price_of(p: Price) -> Result<UnitPrice, CurveError> {
    match decimal_of(p.multiplier@) {
        Some(m) => Ok(UnitPrice { multiplier: m, decimals: p.decimals }),
        None => Err(CurveError::ExternalStepFailed),
    }
}

/// Position of the first entry of `prices` for `asset_id`.
pub open spec fn first_entry_for(prices: Seq<AssetOptionalPrice>, asset_id: Seq<char>) -> Option<int> {
    if exists|i: int| 0 <= i < prices.len() && #[trigger] prices[i].asset_id@ == asset_id {
        Some(
            choose|i: int|
                0 <= i < prices.len() && #[trigger] prices[i].asset_id@ == asset_id && forall|j: int|
                    0 <= j < i ==> #[trigger] prices[j].asset_id@ != asset_id,
        )
    } else {
        None
    }
}

/// The unit price the oracle gives for `asset_id`: its first entry for the
/// asset, which must carry a readable price.
pub open spec fn price_for(prices: Seq<AssetOptionalPrice>, asset_id: Seq<char>) -> Result<
    UnitPrice,
    CurveError,
> {
    match first_entry_for(prices, asset_id) {
        Some(i) => match prices[i].price {
            Some(p) => unit_price_of(p),
            None => Err(CurveError::ExternalStepFailed),
        },
        None => Err(CurveError::ExternalStepFailed),
    }
}

impl Price {
    /// The unit price this quote stands for.
    pub fn unit_price(&self) -> (r: Result<UnitPrice, CurveError>)
        ensures
            r == unit_price_of(*self),
    {
        match parse_decimal(self.multiplier.as_str()) {
            Some(m) => Ok(UnitPrice { multiplier: m, decimals: self.decimals }),
            None => Err(CurveError::ExternalStepFailed),
        }
    }
}

impl PriceData {
    pub fn get_timestamp(self) -> (r: String)
        ensures
            r == self.timestamp,
    {
        self.timestamp
    }

    pub fn get_prices(self) -> (r: Vec<AssetOptionalPrice>)
        ensures
            r == self.prices,
    {
        self.prices
    }

    /// The unit price quoted for `asset_id`; an asset without a readable
    /// price is a failure of the oracle step.
    pub fn price_of(&self, asset_id: &String) -> (r: Result<UnitPrice, CurveError>)
        ensures
            r == price_for(self.prices@, asset_id@),
    {
        let ghost prices = self.prices@;
        let mut i: usize = 0;
        while i < self.prices.len()
            invariant
                prices == self.prices@,
                i <= prices.len(),
                forall|j: int| 0 <= j < i ==> #[trigger] prices[j].asset_id@ != asset_id@,
            decreases prices.len() - i,
        {
            let entry = &self.prices[i];
            if entry.asset_id == *asset_id {
                proof {
                    let w = i as int;
                    let c = first_entry_for(prices, asset_id@).unwrap();
                    if c < w {
                        assert(prices[c].asset_id@ != asset_id@);
                    }
                    if w < c {
                        assert(prices[w].asset_id@ != asset_id@);
                    }
                }
                return match &entry.price {
                    Some(p) => p.unit_price(),
                    None => Err(CurveError::ExternalStepFailed),
                };
            }
            i = i + 1;
        }
        Err(CurveError::ExternalStepFailed)
    }
}

} // verus!
