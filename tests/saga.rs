use bonding_curve::saga::{buy_refund, check_seller_balance};
use bonding_curve::{
    Action, BondingCurve, CurveError, CurveSample, PriceMode, SagaKind, SagaStatus, StepOutcome,
};

fn flat(supply: u128, integral: u128, spot_price: u128) -> CurveSample {
    CurveSample { supply, integral, spot_price }
}

fn owner() -> String {
    "owner.testnet".to_string()
}

fn usdc() -> String {
    "USDC".to_string()
}

/// A curve with USDC registered, where 100 tokens on top of the supply cost
/// 400 USDC units.
fn curve() -> BondingCurve {
    let mut c = BondingCurve::new(owner(), 0, 0, PriceMode::FixedUnitPrice, 50);
    c.add_new_coin(&owner(), usdc(), "usdc.fakes.testnet".to_string(), 6, true, "usdc".to_string())
        .unwrap();
    c
}

fn buy(c: &mut BondingCurve, account: &str, amount: u128, now: u64) -> Result<bonding_curve::Transition, CurveError> {
    let s = c.get_total_supply();
    c.begin_buy(
        account.to_string(),
        100,
        usdc(),
        amount,
        flat(s, 1_000_000_000, 1),
        flat(s + 100, 1_400_000_000, 2),
        None,
        now,
    )
}

#[test]
fn buy_step_zero_failure_refunds_once() {
    let mut c = curve();
    let t = buy(&mut c, "alice.testnet", 500, 0).unwrap();
    assert_eq!(t.status, SagaStatus::StepInFlight(0));
    assert_eq!(t.action, Some(Action::Mint { tokens: 100 }));
    let done = c.on_step_outcome(t.saga_id, StepOutcome::Failure, 1).unwrap();
    assert_eq!(done.status, SagaStatus::Compensated);
    assert_eq!(done.action, Some(Action::Refund { amount: 500 }));
    assert!(!c.has_pending_saga());
    assert_eq!(c.get_total_supply(), 0);
    assert_eq!(c.get_res_balance(&usdc()), Ok(0));
    // the saga is gone: a second outcome issues nothing more
    assert_eq!(
        c.on_step_outcome(t.saga_id, StepOutcome::Failure, 2),
        Err(CurveError::UnknownSaga)
    );
}

#[test]
fn buy_commits_on_mint_success() {
    let mut c = curve();
    let t = buy(&mut c, "alice.testnet", 500, 0).unwrap();
    let done = c.on_step_outcome(t.saga_id, StepOutcome::Success, 1).unwrap();
    assert_eq!(done.status, SagaStatus::Committed);
    assert_eq!(done.action, None);
    assert_eq!(c.get_total_supply(), 100);
    assert_eq!(c.get_res_balance(&usdc()), Ok(500));
    assert_eq!(c.get_token_price(), 2);
}

#[test]
fn buy_rejects_short_payment() {
    let mut c = curve();
    assert_eq!(buy(&mut c, "alice.testnet", 399, 0), Err(CurveError::InsufficientPayment));
    assert!(!c.has_pending_saga());
    assert!(buy(&mut c, "alice.testnet", 400, 0).is_ok());
}

fn funded() -> BondingCurve {
    let mut c = curve();
    let t = buy(&mut c, "alice.testnet", 500, 0).unwrap();
    c.on_step_outcome(t.saga_id, StepOutcome::Success, 1).unwrap();
    c
}

fn sell(c: &mut BondingCurve, now: u64) -> Result<bonding_curve::Transition, CurveError> {
    c.begin_sell(
        "alice.testnet".to_string(),
        100,
        usdc(),
        flat(100, 1_400_000_000, 2),
        flat(0, 1_000_000_000, 1),
        None,
        now,
    )
}

#[test]
fn sell_transfer_failure_remints_once() {
    let mut c = funded();
    let t = sell(&mut c, 10).unwrap();
    assert_eq!(t.action, Some(Action::Burn { tokens: 100 }));
    let saga = c.pending_saga().unwrap();
    assert_eq!(saga.kind, SagaKind::Sell);
    assert_eq!(saga.amount, 400);
    let t1 = c.on_step_outcome(t.saga_id, StepOutcome::Success, 11).unwrap();
    assert_eq!(t1.status, SagaStatus::StepInFlight(1));
    assert_eq!(t1.action, Some(Action::RegisterStorage));
    let t2 = c.on_step_outcome(t.saga_id, StepOutcome::Success, 12).unwrap();
    assert_eq!(t2.status, SagaStatus::StepInFlight(2));
    assert_eq!(t2.action, Some(Action::Transfer { amount: 400 }));
    let t3 = c.on_step_outcome(t.saga_id, StepOutcome::Failure, 13).unwrap();
    assert_eq!(t3.status, SagaStatus::Compensating);
    assert_eq!(t3.action, Some(Action::ReMint { tokens: 100 }));
    let t4 = c.on_step_outcome(t.saga_id, StepOutcome::Success, 14).unwrap();
    assert_eq!(t4.status, SagaStatus::Compensated);
    assert_eq!(t4.action, None);
    assert!(!c.has_pending_saga());
    assert_eq!(c.get_total_supply(), 100);
    assert_eq!(c.get_res_balance(&usdc()), Ok(500));
}

#[test]
fn sell_commits_after_transfer() {
    let mut c = funded();
    let t = sell(&mut c, 10).unwrap();
    c.on_step_outcome(t.saga_id, StepOutcome::Success, 11).unwrap();
    c.on_step_outcome(t.saga_id, StepOutcome::Success, 12).unwrap();
    let done = c.on_step_outcome(t.saga_id, StepOutcome::Success, 13).unwrap();
    assert_eq!(done.status, SagaStatus::Committed);
    assert_eq!(c.get_total_supply(), 0);
    assert_eq!(c.get_res_balance(&usdc()), Ok(100));
    assert_eq!(c.get_token_price(), 1);
}

#[test]
fn sell_burn_failure_needs_no_compensation() {
    let mut c = funded();
    let t = sell(&mut c, 10).unwrap();
    let done = c.on_step_outcome(t.saga_id, StepOutcome::Failure, 11).unwrap();
    assert_eq!(done.status, SagaStatus::Compensated);
    assert_eq!(done.action, None);
    assert_eq!(c.get_total_supply(), 100);
}

#[test]
fn failed_compensation_is_fatal() {
    let mut c = funded();
    let t = sell(&mut c, 10).unwrap();
    c.on_step_outcome(t.saga_id, StepOutcome::Success, 11).unwrap();
    c.on_step_outcome(t.saga_id, StepOutcome::Failure, 12).unwrap();
    assert_eq!(
        c.on_step_outcome(t.saga_id, StepOutcome::Failure, 13),
        Err(CurveError::CompensationFailed)
    );
    assert!(!c.has_pending_saga());
    assert_eq!(c.get_total_supply(), 100);
    assert_eq!(c.get_res_balance(&usdc()), Ok(500));
}

#[test]
fn sell_needs_reserve() {
    let mut c = funded();
    let r = c.begin_sell(
        "alice.testnet".to_string(),
        100,
        usdc(),
        flat(100, 1_600_000_000, 2),
        flat(0, 1_000_000_000, 1),
        None,
        0,
    );
    assert_eq!(r, Err(CurveError::InsufficientReserve));
    assert!(!c.has_pending_saga());
}

#[test]
fn second_buy_waits_for_first() {
    let mut c = curve();
    let first = buy(&mut c, "alice.testnet", 500, 0).unwrap();
    assert_eq!(buy(&mut c, "bob.testnet", 450, 0), Err(CurveError::SagaInFlight));
    assert_eq!(c.get_res_balance(&usdc()), Ok(0));
    c.on_step_outcome(first.saga_id, StepOutcome::Success, 1).unwrap();
    let second = buy(&mut c, "bob.testnet", 450, 2).unwrap();
    assert_ne!(second.saga_id, first.saga_id);
    c.on_step_outcome(second.saga_id, StepOutcome::Success, 3).unwrap();
    assert_eq!(c.get_res_balance(&usdc()), Ok(950));
    assert_eq!(c.get_total_supply(), 200);
}

#[test]
fn saga_blocks_owner_changes() {
    let mut c = curve();
    let t = buy(&mut c, "alice.testnet", 500, 0).unwrap();
    assert_eq!(c.authorize_curve_change(&owner()), Err(CurveError::SagaInFlight));
    assert_eq!(
        c.add_new_coin(&owner(), "DAI".to_string(), "dai".to_string(), 18, true, "dai".to_string()),
        Err(CurveError::SagaInFlight)
    );
    assert_eq!(c.commit_mint(1, &usdc(), 1, 0), Err(CurveError::SagaInFlight));
    c.on_step_outcome(t.saga_id, StepOutcome::Success, 1).unwrap();
    assert_eq!(c.authorize_curve_change(&owner()), Ok(()));
    assert_eq!(
        c.authorize_curve_change(&"mallory.testnet".to_string()),
        Err(CurveError::PermissionDenied)
    );
}

#[test]
fn step_timeout_counts_as_failure() {
    let mut c = curve();
    let t = buy(&mut c, "alice.testnet", 500, 100).unwrap();
    assert_eq!(c.on_timeout(t.saga_id, 149), Ok(None));
    assert!(c.has_pending_saga());
    let done = c.on_timeout(t.saga_id, 150).unwrap().unwrap();
    assert_eq!(done.status, SagaStatus::Compensated);
    assert_eq!(done.action, Some(Action::Refund { amount: 500 }));
    assert_eq!(c.on_timeout(t.saga_id, 151), Err(CurveError::UnknownSaga));
}

#[test]
fn outcome_for_other_saga_is_refused() {
    let mut c = curve();
    let t = buy(&mut c, "alice.testnet", 500, 0).unwrap();
    assert_eq!(
        c.on_step_outcome(t.saga_id + 1, StepOutcome::Success, 1),
        Err(CurveError::UnknownSaga)
    );
    assert!(c.has_pending_saga());
    assert_eq!(c.get_total_supply(), 0);
}

#[test]
fn seller_balance_must_cover_tokens() {
    assert_eq!(check_seller_balance("150", 100), Ok(()));
    assert_eq!(check_seller_balance("100", 100), Ok(()));
    assert_eq!(check_seller_balance("99", 100), Err(CurveError::InsufficientSupply));
    assert_eq!(check_seller_balance("lots", 100), Err(CurveError::ExternalStepFailed));
}

#[test]
fn oracle_mode_sell_needs_price() {
    let mut c = BondingCurve::new(owner(), 0, 0, PriceMode::OraclePrice, 50);
    c.add_new_coin(&owner(), usdc(), "usdc.fakes.testnet".to_string(), 6, true, "usdc".to_string())
        .unwrap();
    c.commit_mint(100, &usdc(), 500, 0).unwrap();
    let r = c.begin_sell(
        "alice.testnet".to_string(),
        100,
        usdc(),
        flat(100, 1_400_000_000, 2),
        flat(0, 1_000_000_000, 1),
        None,
        0,
    );
    assert_eq!(r, Err(CurveError::ExternalStepFailed));
    let p = bonding_curve::UnitPrice { multiplier: 2, decimals: 6 };
    let t = c
        .begin_sell(
            "alice.testnet".to_string(),
            100,
            usdc(),
            flat(100, 1_400_000_000, 2),
            flat(0, 1_000_000_000, 1),
            Some(p),
            0,
        )
        .unwrap();
    assert_eq!(c.pending_saga().unwrap().amount, 200);
    assert_eq!(t.action, Some(Action::Burn { tokens: 100 }));
}

#[test]
fn sell_only_for_stable_coins() {
    let mut c = funded();
    c.add_new_coin(&owner(), "BTC".to_string(), "wbtc.fakes.testnet".to_string(), 8, false, "wbtc".to_string())
        .unwrap();
    let btc = "BTC".to_string();
    assert_eq!(c.check_can_sell(&btc), Err(CurveError::NotStableCoin));
    assert_eq!(c.check_can_sell(&usdc()), Ok(()));
    assert_eq!(c.check_can_sell(&"DOGE".to_string()), Err(CurveError::UnknownAsset));
    let r = c.begin_sell(
        "alice.testnet".to_string(),
        100,
        btc,
        flat(100, 1_400_000_000, 2),
        flat(0, 1_000_000_000, 1),
        None,
        0,
    );
    assert_eq!(r, Err(CurveError::NotStableCoin));
    assert!(!c.has_pending_saga());
    assert_eq!(c.get_total_supply(), 100);
}

#[test]
fn buy_checks_before_oracle() {
    let mut c = curve();
    assert_eq!(c.check_can_buy(&usdc()), Ok(()));
    assert_eq!(c.check_can_buy(&"DOGE".to_string()), Err(CurveError::UnknownAsset));
    let t = buy(&mut c, "alice.testnet", 500, 0).unwrap();
    assert_eq!(c.check_can_buy(&usdc()), Err(CurveError::SagaInFlight));
    assert_eq!(c.check_can_sell(&usdc()), Err(CurveError::SagaInFlight));
    c.on_step_outcome(t.saga_id, StepOutcome::Success, 1).unwrap();
    assert_eq!(c.check_can_buy(&usdc()), Ok(()));
}

#[test]
fn refused_buy_is_refunded() {
    let mut c = curve();
    let refused = buy(&mut c, "alice.testnet", 300, 0);
    assert_eq!(buy_refund(&refused, 300), Some(Action::Refund { amount: 300 }));
    let started = buy(&mut c, "alice.testnet", 500, 0);
    assert_eq!(buy_refund(&started, 500), None);
}
