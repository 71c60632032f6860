use bonding_curve::decimal::{parse_buy_message, parse_decimal};
use bonding_curve::{
    price_request, Asset,
    AssetOptionalPrice, BondingCurve, CurveError, Oracle, Price, PriceData, PriceMode, Schedule,
    UnitPrice, Vestors,
};

#[test]
fn decimal_numbers() {
    assert_eq!(parse_decimal("0"), Some(0));
    assert_eq!(parse_decimal("10001"), Some(10001));
    assert_eq!(parse_decimal("340282366920938463463374607431768211455"), Some(u128::MAX));
    assert_eq!(parse_decimal("340282366920938463463374607431768211456"), None);
    assert_eq!(parse_decimal(""), None);
    assert_eq!(parse_decimal("12a"), None);
    assert_eq!(parse_decimal("-1"), None);
    assert_eq!(parse_decimal("1.5"), None);
}

#[test]
fn buy_messages() {
    assert_eq!(parse_buy_message("Buy lts 100"), Ok(100));
    assert_eq!(parse_buy_message("Buy lts 0"), Err(CurveError::InvalidMessage));
    assert_eq!(parse_buy_message("Buy lts "), Err(CurveError::InvalidMessage));
    assert_eq!(parse_buy_message("Sell lts 100"), Err(CurveError::InvalidMessage));
    assert_eq!(parse_buy_message("Buy"), Err(CurveError::InvalidMessage));
    assert_eq!(parse_buy_message("Buy lts x"), Err(CurveError::InvalidMessage));
    assert_eq!(parse_buy_message("Buy lts:5"), Ok(5));
    assert_eq!(parse_buy_message("Buy lts_12"), Ok(12));
    assert_eq!(parse_buy_message("Buy lts5"), Err(CurveError::InvalidMessage));
    assert_eq!(parse_buy_message("Buy lts  5"), Err(CurveError::InvalidMessage));
}

#[test]
fn transfer_from_registered_token() {
    let owner = "owner.testnet".to_string();
    let mut c = BondingCurve::new(owner.clone(), 0, 0, PriceMode::FixedUnitPrice, 60);
    c.add_new_coin(&owner, "USDC".to_string(), "usdc.fakes.testnet".to_string(), 6, true, "usdc".to_string())
        .unwrap();
    assert_eq!(
        c.accept_transfer(&"usdc.fakes.testnet".to_string(), &"Buy lts 42".to_string()),
        Ok(("USDC".to_string(), 42))
    );
    assert_eq!(
        c.accept_transfer(&"usdc.fakes.testnet".to_string(), &"Buy lts:5".to_string()),
        Ok(("USDC".to_string(), 5))
    );
    assert_eq!(
        c.accept_transfer(&"fake.testnet".to_string(), &"Buy lts 42".to_string()),
        Err(CurveError::UnknownAsset)
    );
    assert_eq!(
        c.accept_transfer(&"usdc.fakes.testnet".to_string(), &"hello".to_string()),
        Err(CurveError::InvalidMessage)
    );
}

fn price_data() -> PriceData {
    PriceData {
        timestamp: "1663000000000000000".to_string(),
        recency_duration_sec: 90,
        prices: vec![
            AssetOptionalPrice { asset_id: "wrap.testnet".to_string(), price: None },
            AssetOptionalPrice {
                asset_id: "usdc.fakes.testnet".to_string(),
                price: Some(Price { multiplier: "10001".to_string(), decimals: 10 }),
            },
            AssetOptionalPrice {
                asset_id: "usdc.fakes.testnet".to_string(),
                price: Some(Price { multiplier: "1".to_string(), decimals: 1 }),
            },
            AssetOptionalPrice {
                asset_id: "bad.testnet".to_string(),
                price: Some(Price { multiplier: "1.5".to_string(), decimals: 1 }),
            },
        ],
    }
}

#[test]
fn oracle_prices() {
    let d = price_data();
    assert_eq!(
        d.price_of(&"usdc.fakes.testnet".to_string()),
        Ok(UnitPrice { multiplier: 10001, decimals: 10 })
    );
    assert_eq!(d.price_of(&"wrap.testnet".to_string()), Err(CurveError::ExternalStepFailed));
    assert_eq!(d.price_of(&"bad.testnet".to_string()), Err(CurveError::ExternalStepFailed));
    assert_eq!(d.price_of(&"none.testnet".to_string()), Err(CurveError::ExternalStepFailed));
    assert_eq!(
        Price { multiplier: "25".to_string(), decimals: 3 }.unit_price(),
        Ok(UnitPrice { multiplier: 25, decimals: 3 })
    );
    assert_eq!(d.clone().get_timestamp(), "1663000000000000000");
    assert_eq!(d.get_prices().len(), 4);
}

#[test]
fn vesting_defaults() {
    let s = Schedule::new();
    assert_eq!((s.schedule_id, s.amount_of_token, s.initial_unlock, s.duration), (0, 0, 0, 4));
    let v = Vestors::new();
    assert_eq!(v.id, "");
    assert_eq!(v.owner_id, "");
    assert_eq!((v.amount_of_token, v.locked_amount, v.unlocked_amount), (0, 0, 0));
    assert_eq!((v.duration, v.timestamp, v.nb_time_payment), (4, 0, 0));
}

struct FixedOracle;

impl Oracle for FixedOracle {
    fn get_price_data(&self, _asset_ids: Option<Vec<String>>) -> PriceData {
        price_data()
    }
}

#[test]
fn unit_price_from_oracle() {
    let owner = "owner.testnet".to_string();
    let mut c = BondingCurve::new(owner.clone(), 0, 0, PriceMode::OraclePrice, 60);
    c.add_new_coin(&owner, "USDC".to_string(), "usdc.fakes.testnet".to_string(), 6, true, "usdc.fakes.testnet".to_string())
        .unwrap();
    c.add_new_coin(&owner, "WNEAR".to_string(), "wrap.testnet".to_string(), 24, false, "wrap.testnet".to_string())
        .unwrap();
    assert_eq!(
        c.fetch_unit_price(&FixedOracle, &"USDC".to_string()),
        Ok(Some(UnitPrice { multiplier: 10001, decimals: 10 }))
    );
    assert_eq!(
        c.fetch_unit_price(&FixedOracle, &"WNEAR".to_string()),
        Err(CurveError::ExternalStepFailed)
    );
    assert_eq!(c.fetch_unit_price(&FixedOracle, &"DAI".to_string()), Err(CurveError::UnknownAsset));
    let fixed = BondingCurve::new(owner.clone(), 0, 0, PriceMode::FixedUnitPrice, 60);
    assert_eq!(fixed.fetch_unit_price(&FixedOracle, &"USDC".to_string()), Err(CurveError::UnknownAsset));
}

#[test]
fn oracle_request_names_the_asset() {
    let asset = Asset {
        symbol: "USDC".to_string(),
        reference: "usdc.fakes.testnet".to_string(),
        decimals: 6,
        stable: true,
        oracle_id: "usdc.oracle".to_string(),
    };
    assert_eq!(price_request(&asset), Some(vec!["usdc.oracle".to_string()]));
}
