use bonding_curve::ledger::ReserveLedger;
use bonding_curve::{BondingCurve, CurveError, PriceMode};

fn owner() -> String {
    "newtreasury.testnet".to_string()
}

fn seeded() -> BondingCurve {
    let mut c = BondingCurve::new(owner(), 0, 0, PriceMode::OraclePrice, 60);
    let coins = [
        ("USDT.e", "usdt.fakes.testnet", 6, true),
        ("USDC", "usdc.fakes.testnet", 6, true),
        ("BTC", "wbtc.fakes.testnet", 8, false),
        ("ETH", "weth.fakes.testnet", 18, false),
    ];
    for (name, contract, decimals, stable) in coins {
        c.add_new_coin(
            &owner(),
            name.to_string(),
            contract.to_string(),
            decimals,
            stable,
            contract.to_string(),
        )
        .unwrap();
    }
    c
}

#[test]
fn registry_lists_in_order() {
    let c = seeded();
    assert_eq!(c.get_coins(), vec!["USDT.e", "USDC", "BTC", "ETH"]);
    assert_eq!(
        c.get_all_coins_contracts(),
        vec!["usdt.fakes.testnet", "usdc.fakes.testnet", "wbtc.fakes.testnet", "weth.fakes.testnet"]
    );
    assert_eq!(c.get_stable_coins(), vec!["USDT.e", "USDC"]);
    assert!(c.check_stable_coin(&"USDC".to_string()));
    assert!(!c.check_stable_coin(&"BTC".to_string()));
    assert!(!c.check_stable_coin(&"DOGE".to_string()));
    assert_eq!(c.get_decimals(&"ETH".to_string()), Ok(18));
    assert_eq!(c.get_coin_contract(&"BTC".to_string()), Ok("wbtc.fakes.testnet".to_string()));
    assert_eq!(c.get_asset_id(&"USDC".to_string()), Ok("usdc.fakes.testnet".to_string()));
    assert_eq!(c.get_decimals(&"DOGE".to_string()), Err(CurveError::UnknownAsset));
    assert_eq!(c.get_res_balance(&"DOGE".to_string()), Err(CurveError::UnknownAsset));
}

#[test]
fn resolve_by_contract() {
    let c = seeded();
    assert_eq!(
        c.get_coin_name_from_contract(&"wbtc.fakes.testnet".to_string()),
        Ok("BTC".to_string())
    );
    assert_eq!(
        c.get_coin_name_from_contract(&"nothing.testnet".to_string()),
        Err(CurveError::UnknownAsset)
    );
}

#[test]
fn only_owner_changes_registry() {
    let mut c = seeded();
    let stranger = "mallory.testnet".to_string();
    assert_eq!(
        c.add_new_coin(&stranger, "DAI".to_string(), "dai".to_string(), 18, true, "dai".to_string()),
        Err(CurveError::PermissionDenied)
    );
    assert_eq!(c.delete_coin(&stranger, &"BTC".to_string()), Err(CurveError::PermissionDenied));
    assert_eq!(c.change_owner_id(&stranger, stranger.clone()), Err(CurveError::PermissionDenied));
    assert_eq!(c.get_owner_id(), owner());
    assert_eq!(c.change_owner_id(&owner(), stranger.clone()), Ok(()));
    assert_eq!(c.get_owner_id(), stranger);
    assert_eq!(c.delete_coin(&owner(), &"BTC".to_string()), Err(CurveError::PermissionDenied));
}

#[test]
fn register_rejects_wide_decimals() {
    let mut c = seeded();
    assert_eq!(
        c.add_new_coin(&owner(), "X".to_string(), "x".to_string(), 39, false, "x".to_string()),
        Err(CurveError::ConfigurationError)
    );
    assert_eq!(c.get_coins().len(), 4);
}

#[test]
fn overwrite_keeps_reserve_and_order() {
    let mut c = seeded();
    let usdc = "USDC".to_string();
    c.commit_mint(10, &usdc, 77, 0).unwrap();
    c.add_new_coin(&owner(), usdc.clone(), "usdc.new.testnet".to_string(), 6, true, "usdc".to_string())
        .unwrap();
    assert_eq!(c.get_res_balance(&usdc), Ok(77));
    assert_eq!(c.get_coins(), vec!["USDT.e", "USDC", "BTC", "ETH"]);
    assert_eq!(c.get_coin_contract(&usdc), Ok("usdc.new.testnet".to_string()));
}

#[test]
fn delete_needs_empty_reserve() {
    let mut c = seeded();
    let usdc = "USDC".to_string();
    c.commit_mint(10, &usdc, 77, 0).unwrap();
    assert_eq!(c.delete_coin(&owner(), &usdc), Err(CurveError::ReserveNotEmpty));
    assert_eq!(c.delete_coin(&owner(), &"DOGE".to_string()), Err(CurveError::UnknownAsset));
    assert_eq!(c.delete_coin(&owner(), &"BTC".to_string()), Ok(()));
    assert_eq!(c.get_coins(), vec!["USDT.e", "USDC", "ETH"]);
    assert_eq!(c.get_res_balance(&"BTC".to_string()), Err(CurveError::UnknownAsset));
}

#[test]
fn ledger_burn_bounds() {
    let mut l = ReserveLedger::new();
    let usdc = "USDC".to_string();
    assert_eq!(l.apply_mint(&usdc, 1, 1), Err(CurveError::UnknownAsset));
    l.open(usdc.clone());
    assert_eq!(l.apply_mint(&usdc, 100, 500), Ok(()));
    assert_eq!(l.apply_burn(&usdc, 10, 501), Err(CurveError::InsufficientReserve));
    assert_eq!(l.apply_burn(&usdc, 101, 5), Err(CurveError::InsufficientSupply));
    assert_eq!(l.total_supply(), 100);
    assert_eq!(l.reserve_of(&usdc), 500);
    assert_eq!(l.apply_burn(&usdc, 100, 500), Ok(()));
    assert_eq!(l.total_supply(), 0);
    assert_eq!(l.reserve_of(&usdc), 0);
    assert_eq!(l.apply_burn(&usdc, 0, 1), Err(CurveError::InsufficientReserve));
}

#[test]
fn ledger_mint_overflow_changes_nothing() {
    let mut l = ReserveLedger::new();
    let usdc = "USDC".to_string();
    l.open(usdc.clone());
    l.apply_mint(&usdc, u128::MAX - 1, 10).unwrap();
    assert_eq!(l.apply_mint(&usdc, 2, 1), Err(CurveError::Overflow));
    assert_eq!(l.apply_mint(&usdc, 1, u128::MAX), Err(CurveError::Overflow));
    assert_eq!(l.total_supply(), u128::MAX - 1);
    assert_eq!(l.reserve_of(&usdc), 10);
}
