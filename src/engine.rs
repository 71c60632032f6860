use vstd::prelude::*;
use crate::curve::{value_to_amount, value_to_amount_result, CurveSample, UnitPrice};
use crate::decimal::{buy_order, parse_buy_message};
use crate::error::CurveError;
use crate::oracle::{price_for, AssetId, AssetOptionalPrice, Oracle};
use crate::ledger::{burn_result, mint_result, reserve_in, LedgerModel, ReserveLedger};
use crate::registry::{first_with_reference, Asset, CoinRegistry, MAX_ASSET_DECIMALS};
use crate::saga::{
    action_for, committed_ledger, deadline_after, is_terminal, next_action, next_status, saga_wf,
    step_at, step_total, successor_id, Action, Saga, SagaKind, SagaStatus, StepOutcome, Transition,
};

verus! {

/// Where the price of a reserve asset comes from.
#[derive(Debug, Clone, Copy, PartialEq, Eq, Structural)]
pub enum PriceMode {
    /// Every asset is pegged: one whole unit is worth one currency unit.
    FixedUnitPrice,
    /// The price of each operation is supplied by a price oracle.
    OraclePrice,
}

/// The bonding curve: the asset registry, the reserve ledger, the cached
/// display price and the saga in flight, if any.
pub struct BondingCurve {
    pub(crate) registry: CoinRegistry,
    pub(crate) ledger: ReserveLedger,
    pub(crate) mode: PriceMode,
    pub(crate) token_price: u128,
    pub(crate) price_floor: u128,
    pub(crate) step_timeout: u64,
    pub(crate) saga: Option<Saga>,
    pub(crate) next_saga_id: u64,
}

/// The price of the smallest unit of `asset`: the peg in fixed mode, the
/// oracle's price in oracle mode.
pub open spec fn unit_price_for(mode: PriceMode, asset: Asset, oracle: Option<UnitPrice>) -> Result<
    UnitPrice,
    CurveError,
> {
    match mode {
        PriceMode::FixedUnitPrice => Ok(UnitPrice { multiplier: 1, decimals: asset.decimals }),
        PriceMode::OraclePrice => match oracle {
            Some(p) => Ok(p),
            None => Err(CurveError::ExternalStepFailed),
        },
    }
}

/// The cost, in smallest units of `symbol`, of minting `tokens` at supply
/// `supply`: the curve value between the two samples, converted at the
/// asset's unit price and rounded down.
pub open spec fn mint_quote(
    assets: Map<Seq<char>, Asset>,
    supply: nat,
    mode: PriceMode,
    tokens: nat,
    symbol: Seq<char>,
    current: CurveSample,
    target: CurveSample,
    oracle: Option<UnitPrice>,
) -> Result<u128, CurveError> {
    if !assets.contains_key(symbol) {
        Err(CurveError::UnknownAsset)
    } else if supply + tokens > u128::MAX {
        Err(CurveError::Overflow)
    } else if current.supply != supply || target.supply != supply + tokens {
        Err(CurveError::ConfigurationError)
    } else if target.integral < current.integral {
        Err(CurveError::ConfigurationError)
    } else {
        match unit_price_for(mode, assets[symbol], oracle) {
            Err(e) => Err(e),
            Ok(p) => value_to_amount_result((target.integral - current.integral) as nat, p),
        }
    }
}

/// The refund, in smallest units of `symbol`, for burning `tokens` at supply
/// `supply`: the curve value between the two samples, converted at the
/// asset's unit price and rounded down.
pub open spec fn burn_quote(
    assets: Map<Seq<char>, Asset>,
    supply: nat,
    mode: PriceMode,
    tokens: nat,
    symbol: Seq<char>,
    current: CurveSample,
    target: CurveSample,
    oracle: Option<UnitPrice>,
) -> Result<u128, CurveError> {
    if !assets.contains_key(symbol) {
        Err(CurveError::UnknownAsset)
    } else if tokens > supply {
        Err(CurveError::InsufficientSupply)
    } else if current.supply != supply || target.supply != supply - tokens {
        Err(CurveError::ConfigurationError)
    } else if current.integral < target.integral {
        Err(CurveError::ConfigurationError)
    } else {
        match unit_price_for(mode, assets[symbol], oracle) {
            Err(e) => Err(e),
            Ok(p) => value_to_amount_result((current.integral - target.integral) as nat, p),
        }
    }
}

impl BondingCurve {
    /// The registered assets by symbol.
    pub closed spec fn assets(&self) -> Map<Seq<char>, Asset> {
        self.registry.assets()
    }

    /// The registered symbols, in the order of first registration.
    pub closed spec fn symbols(&self) -> Seq<Seq<char>> {
        self.registry.symbols()
    }

    pub closed spec fn owner_id(&self) -> Seq<char> {
        self.registry.owner_id()
    }

    /// The token supply and the reserves.
    pub closed spec fn ledger(&self) -> LedgerModel {
        self.ledger.model()
    }

    pub closed spec fn price_mode(&self) -> PriceMode {
        self.mode
    }

    pub closed spec fn display_price(&self) -> u128 {
        self.token_price
    }

    pub closed spec fn floor_price(&self) -> u128 {
        self.price_floor
    }

    /// The saga in flight, if any.
    pub closed spec fn pending(&self) -> Option<Saga> {
        self.saga
    }

    pub closed spec fn timeout(&self) -> u64 {
        self.step_timeout
    }

    /// The identifier the next saga will get.
    pub closed spec fn next_id(&self) -> u64 {
        self.next_saga_id
    }

    pub closed spec fn wf(&self) -> bool {
        &&& self.registry.wf()
        &&& self.ledger.wf()
        &&& self.ledger.model().reserves.dom() == self.registry.assets().dom()
        &&& self.saga matches Some(s) ==> saga_wf(s, self.ledger.model())
    }

    /// The registered symbols are listed once each, and every registered
    /// asset, and no other, has a reserve.
    pub proof fn lemma_wf(&self)
        requires
            self.wf(),
        ensures
            self.symbols().no_duplicates(),
            self.symbols().to_set() == self.assets().dom(),
            self.ledger().reserves.dom() == self.assets().dom(),
    {
        self.registry.lemma_symbols();
    }

    pub fn new(owner: String, token_price: u128, price_floor: u128, mode: PriceMode, step_timeout: u64) -> (r: Self)
        ensures
            r.wf(),
            r.owner_id() == owner@,
            r.assets() == Map::<Seq<char>, Asset>::empty(),
            r.symbols() == Seq::<Seq<char>>::empty(),
            r.ledger() == (LedgerModel { supply: 0, reserves: Map::empty() }),
            r.price_mode() == mode,
            r.display_price() == token_price,
            r.floor_price() == price_floor,
            r.timeout() == step_timeout,
            r.pending() is None,
    {
        BondingCurve {
            registry: CoinRegistry::new(owner),
            ledger: ReserveLedger::new(),
            mode,
            token_price,
            price_floor,
            step_timeout,
            saga: None,
            next_saga_id: 0,
        }
    }

    fn unit_price(&self, asset: &Asset, oracle: Option<UnitPrice>) -> (r: Result<UnitPrice, CurveError>)
        ensures
            r == unit_price_for(self.mode, *asset, oracle),
    {
        match self.mode {
            PriceMode::FixedUnitPrice => Ok(UnitPrice { multiplier: 1, decimals: asset.decimals }),
            PriceMode::OraclePrice => match oracle {
                Some(p) => Ok(p),
                None => Err(CurveError::ExternalStepFailed),
            },
        }
    }

    /// The cost of minting `num_tokens` in `symbol`, from the curve samples
    /// at the current supply and at the supply after the mint.
    pub fn price_to_mint(
        &self,
        num_tokens: u128,
        symbol: &String,
        current: CurveSample,
        target: CurveSample,
        oracle: Option<UnitPrice>,
    ) -> (r: Result<u128, CurveError>)
        requires
            self.wf(),
        ensures
            r == mint_quote(
                self.assets(),
                self.ledger().supply,
                self.price_mode(),
                num_tokens as nat,
                symbol@,
                current,
                target,
                oracle,
            ),
    {
        let asset = match self.registry.lookup(symbol) {
            Ok(a) => a,
            Err(e) => {
                return Err(e);
            },
        };
        let supply = self.ledger.total_supply();
        let new_supply = match supply.checked_add(num_tokens) {
            Some(s) => s,
            None => {
                return Err(CurveError::Overflow);
            },
        };
        if current.supply != supply || target.supply != new_supply {
            return Err(CurveError::ConfigurationError);
        }
        if target.integral < current.integral {
            return Err(CurveError::ConfigurationError);
        }
        let price = match self.unit_price(asset, oracle) {
            Ok(p) => p,
            Err(e) => {
                return Err(e);
            },
        };
        value_to_amount(target.integral - current.integral, price)
    }

    /// The refund for burning `num_tokens` in `symbol`, from the curve samples
    /// at the current supply and at the supply after the burn.
    pub fn reward_for_burn(
        &self,
        num_tokens: u128,
        symbol: &String,
        current: CurveSample,
        target: CurveSample,
        oracle: Option<UnitPrice>,
    ) -> (r: Result<u128, CurveError>)
        requires
            self.wf(),
        ensures
            r == burn_quote(
                self.assets(),
                self.ledger().supply,
                self.price_mode(),
                num_tokens as nat,
                symbol@,
                current,
                target,
                oracle,
            ),
    {
        let asset = match self.registry.lookup(symbol) {
            Ok(a) => a,
            Err(e) => {
                return Err(e);
            },
        };
        let supply = self.ledger.total_supply();
        if num_tokens > supply {
            return Err(CurveError::InsufficientSupply);
        }
        if current.supply != supply || target.supply != supply - num_tokens {
            return Err(CurveError::ConfigurationError);
        }
        if current.integral < target.integral {
            return Err(CurveError::ConfigurationError);
        }
        let price = match self.unit_price(asset, oracle) {
            Ok(p) => p,
            Err(e) => {
                return Err(e);
            },
        };
        value_to_amount(current.integral - target.integral, price)
    }

    /// Records a mint of `num_tokens` paid with `amount_paid` of `symbol`, and
    /// sets the display price to `spot_price`. Refused while a saga is in
    /// flight.
    pub fn commit_mint(&mut self, num_tokens: u128, symbol: &String, amount_paid: u128, spot_price: u128) -> (r: Result<
        (),
        CurveError,
    >)
        requires
            old(self).wf(),
        ensures
            final(self).wf(),
            final(self).price_mode() == old(self).price_mode(),
            final(self).floor_price() == old(self).floor_price(),
            final(self).timeout() == old(self).timeout(),
            final(self).next_id() == old(self).next_id(),
            final(self).assets() == old(self).assets(),
            final(self).symbols() == old(self).symbols(),
            final(self).owner_id() == old(self).owner_id(),
            final(self).pending() == old(self).pending(),
            old(self).pending() is Some ==> r == Err::<(), CurveError>(CurveError::SagaInFlight),
            old(self).pending() is None ==> match mint_result(
                old(self).ledger(),
                symbol@,
                num_tokens as nat,
                amount_paid as nat,
            ) {
                Ok(m) => r is Ok && final(self).ledger() == m && final(self).display_price()
                    == spot_price,
                Err(e) => r == Err::<(), CurveError>(e),
            },
            r is Err ==> final(self).ledger() == old(self).ledger() && final(self).display_price()
                == old(self).display_price(),
    {
        if self.saga.is_some() {
            return Err(CurveError::SagaInFlight);
        }
        match self.ledger.apply_mint(symbol, num_tokens, amount_paid) {
            Ok(()) => {},
            Err(e) => {
                return Err(e);
            },
        }
        assert(self.ledger.model().reserves.dom() =~= old(self).ledger.model().reserves.dom());
        self.token_price = spot_price;
        Ok(())
    }

    /// Records a burn of `num_tokens` refunded with `amount_returned` of
    /// `symbol`, and sets the display price to `spot_price`. Refused while a
    /// saga is in flight.
    pub fn commit_burn(&mut self, num_tokens: u128, symbol: &String, amount_returned: u128, spot_price: u128) -> (r: Result<
        (),
        CurveError,
    >)
        requires
            old(self).wf(),
        ensures
            final(self).wf(),
            final(self).price_mode() == old(self).price_mode(),
            final(self).floor_price() == old(self).floor_price(),
            final(self).timeout() == old(self).timeout(),
            final(self).next_id() == old(self).next_id(),
            final(self).assets() == old(self).assets(),
            final(self).symbols() == old(self).symbols(),
            final(self).owner_id() == old(self).owner_id(),
            final(self).pending() == old(self).pending(),
            old(self).pending() is Some ==> r == Err::<(), CurveError>(CurveError::SagaInFlight),
            old(self).pending() is None ==> match burn_result(
                old(self).ledger(),
                symbol@,
                num_tokens as nat,
                amount_returned as nat,
            ) {
                Ok(m) => r is Ok && final(self).ledger() == m && final(self).display_price()
                    == spot_price,
                Err(e) => r == Err::<(), CurveError>(e),
            },
            r is Err ==> final(self).ledger() == old(self).ledger() && final(self).display_price()
                == old(self).display_price(),
    {
        if self.saga.is_some() {
            return Err(CurveError::SagaInFlight);
        }
        match self.ledger.apply_burn(symbol, num_tokens, amount_returned) {
            Ok(()) => {},
            Err(e) => {
                return Err(e);
            },
        }
        assert(self.ledger.model().reserves.dom() =~= old(self).ledger.model().reserves.dom());
        self.token_price = spot_price;
        Ok(())
    }
}

impl BondingCurve {
    /// Whether a saga is in flight.
    pub fn has_pending_saga(&self) -> (r: bool)
        ensures
            r == self.pending() is Some,
    {
        self.saga.is_some()
    }

    /// The saga in flight, if any.
    pub fn pending_saga(&self) -> (r: Option<&Saga>)
        ensures
            r.is_none() == self.pending().is_none(),
            r matches Some(s) ==> *s == self.pending().unwrap(),
    {
        match &self.saga {
            Some(s) => Some(s),
            None => None,
        }
    }

    fn issue_id(&mut self) -> (r: u64)
        ensures
            r == old(self).next_id(),
            final(self).next_id() == successor_id(old(self).next_id()),
            final(self).registry == old(self).registry,
            final(self).ledger == old(self).ledger,
            final(self).mode == old(self).mode,
            final(self).token_price == old(self).token_price,
            final(self).price_floor == old(self).price_floor,
            final(self).step_timeout == old(self).step_timeout,
            final(self).saga == old(self).saga,
    {
        let id = self.next_saga_id;
        self.next_saga_id = if id == u64::MAX {
            0
        } else {
            id + 1
        };
        id
    }

    /// Starts a buy of `num_tokens` for `account`, paid with
    /// `amount_attached` of `symbol`: the payment must cover the price, and
    /// no other saga may be in flight. The first step mints the tokens.
    pub fn begin_buy(
        &mut self,
        account: String,
        num_tokens: u128,
        symbol: String,
        amount_attached: u128,
        current: CurveSample,
        target: CurveSample,
        oracle: Option<UnitPrice>,
        now: u64,
    ) -> (r: Result<Transition, CurveError>)
        requires
            old(self).wf(),
        ensures
            final(self).wf(),
            final(self).price_mode() == old(self).price_mode(),
            final(self).floor_price() == old(self).floor_price(),
            final(self).assets() == old(self).assets(),
            final(self).symbols() == old(self).symbols(),
            final(self).owner_id() == old(self).owner_id(),
            final(self).ledger() == old(self).ledger(),
            final(self).display_price() == old(self).display_price(),
            final(self).timeout() == old(self).timeout(),
            old(self).pending() is Some ==> r == Err::<Transition, CurveError>(
                CurveError::SagaInFlight,
            ),
            old(self).pending() is None ==> match mint_quote(
                old(self).assets(),
                old(self).ledger().supply,
                old(self).price_mode(),
                num_tokens as nat,
                symbol@,
                current,
                target,
                oracle,
            ) {
                Err(e) => r == Err::<Transition, CurveError>(e),
                Ok(q) => if amount_attached < q {
                    r == Err::<Transition, CurveError>(CurveError::InsufficientPayment)
                } else if reserve_in(old(self).ledger(), symbol@) + amount_attached > u128::MAX {
                    r == Err::<Transition, CurveError>(CurveError::Overflow)
                } else {
                    &&& r == Ok::<Transition, CurveError>(
                        Transition {
                            saga_id: old(self).next_id(),
                            status: SagaStatus::StepInFlight(0),
                            action: Some(Action::Mint { tokens: num_tokens }),
                        },
                    )
                    &&& final(self).pending() == Some(
                        Saga {
                            id: old(self).next_id(),
                            kind: SagaKind::Buy,
                            account,
                            asset: symbol,
                            num_tokens,
                            amount: amount_attached,
                            spot_price: target.spot_price,
                            status: SagaStatus::StepInFlight(0),
                            deadline: deadline_after(now, old(self).timeout()),
                        },
                    )
                    &&& final(self).next_id() == successor_id(old(self).next_id())
                },
            },
            r is Err ==> final(self).pending() == old(self).pending() && final(self).next_id()
                == old(self).next_id(),
    {
        if self.saga.is_some() {
            return Err(CurveError::SagaInFlight);
        }
        let quote = match self.price_to_mint(num_tokens, &symbol, current, target, oracle) {
            Ok(q) => q,
            Err(e) => {
                return Err(e);
            },
        };
        if amount_attached < quote {
            return Err(CurveError::InsufficientPayment);
        }
        let reserve = self.ledger.reserve_of(&symbol);
        if reserve.checked_add(amount_attached).is_none() {
            return Err(CurveError::Overflow);
        }
        let id = self.issue_id();
        let saga = Saga {
            id,
            kind: SagaKind::Buy,
            account,
            asset: symbol,
            num_tokens,
            amount: amount_attached,
            spot_price: target.spot_price,
            status: SagaStatus::StepInFlight(0),
            deadline: now.saturating_add(self.step_timeout),
        };
        self.saga = Some(saga);
        Ok(Transition { saga_id: id, status: SagaStatus::StepInFlight(0), action: Some(Action::Mint { tokens: num_tokens }) })
    }

    /// Starts a sell of `num_tokens` by `account` for a refund in `symbol`:
    /// the reserve must cover the refund, and no other saga may be in
    /// flight. The first step burns the tokens.
    pub fn begin_sell(
        &mut self,
        account: String,
        num_tokens: u128,
        symbol: String,
        current: CurveSample,
        target: CurveSample,
        oracle: Option<UnitPrice>,
        now: u64,
    ) -> (r: Result<Transition, CurveError>)
        requires
            old(self).wf(),
        ensures
            final(self).wf(),
            final(self).price_mode() == old(self).price_mode(),
            final(self).floor_price() == old(self).floor_price(),
            final(self).assets() == old(self).assets(),
            final(self).symbols() == old(self).symbols(),
            final(self).owner_id() == old(self).owner_id(),
            final(self).ledger() == old(self).ledger(),
            final(self).display_price() == old(self).display_price(),
            final(self).timeout() == old(self).timeout(),
            old(self).pending() is Some ==> r == Err::<Transition, CurveError>(
                CurveError::SagaInFlight,
            ),
            old(self).pending() is None && old(self).assets().contains_key(symbol@) && !old(
                self,
            ).assets()[symbol@].stable ==> r == Err::<Transition, CurveError>(
                CurveError::NotStableCoin,
            ),
            old(self).pending() is None && !(old(self).assets().contains_key(symbol@) && !old(
                self,
            ).assets()[symbol@].stable) ==> match burn_quote(
                old(self).assets(),
                old(self).ledger().supply,
                old(self).price_mode(),
                num_tokens as nat,
                symbol@,
                current,
                target,
                oracle,
            ) {
                Err(e) => r == Err::<Transition, CurveError>(e),
                Ok(q) => if reserve_in(old(self).ledger(), symbol@) < q {
                    r == Err::<Transition, CurveError>(CurveError::InsufficientReserve)
                } else {
                    &&& r == Ok::<Transition, CurveError>(
                        Transition {
                            saga_id: old(self).next_id(),
                            status: SagaStatus::StepInFlight(0),
                            action: Some(Action::Burn { tokens: num_tokens }),
                        },
                    )
                    &&& final(self).pending() == Some(
                        Saga {
                            id: old(self).next_id(),
                            kind: SagaKind::Sell,
                            account,
                            asset: symbol,
                            num_tokens,
                            amount: q,
                            spot_price: target.spot_price,
                            status: SagaStatus::StepInFlight(0),
                            deadline: deadline_after(now, old(self).timeout()),
                        },
                    )
                    &&& final(self).next_id() == successor_id(old(self).next_id())
                },
            },
            r is Err ==> final(self).pending() == old(self).pending() && final(self).next_id()
                == old(self).next_id(),
    {
        if self.saga.is_some() {
            return Err(CurveError::SagaInFlight);
        }
        match self.registry.lookup(&symbol) {
            Ok(a) => {
                if !a.stable {
                    return Err(CurveError::NotStableCoin);
                }
            },
            Err(_) => {},
        }
        let reward = match self.reward_for_burn(num_tokens, &symbol, current, target, oracle) {
            Ok(q) => q,
            Err(e) => {
                return Err(e);
            },
        };
        let reserve = self.ledger.reserve_of(&symbol);
        if reserve < reward {
            return Err(CurveError::InsufficientReserve);
        }
        let id = self.issue_id();
        let saga = Saga {
            id,
            kind: SagaKind::Sell,
            account,
            asset: symbol,
            num_tokens,
            amount: reward,
            spot_price: target.spot_price,
            status: SagaStatus::StepInFlight(0),
            deadline: now.saturating_add(self.step_timeout),
        };
        self.saga = Some(saga);
        Ok(Transition { saga_id: id, status: SagaStatus::StepInFlight(0), action: Some(Action::Burn { tokens: num_tokens }) })
    }

    /// Moves the saga `saga_id` on the `outcome` of what it awaits, at time
    /// `now`. A terminal saga is discarded; a committed one updates the
    /// ledger and the display price; a fatal one is reported as
    /// `CompensationFailed`.
    pub fn on_step_outcome(&mut self, saga_id: u64, outcome: StepOutcome, now: u64) -> (r: Result<
        Transition,
        CurveError,
    >)
        requires
            old(self).wf(),
        ensures
            final(self).wf(),
            final(self).price_mode() == old(self).price_mode(),
            final(self).floor_price() == old(self).floor_price(),
            final(self).assets() == old(self).assets(),
            final(self).symbols() == old(self).symbols(),
            final(self).owner_id() == old(self).owner_id(),
            final(self).timeout() == old(self).timeout(),
            final(self).next_id() == old(self).next_id(),
            !(old(self).pending() matches Some(s) && s.id == saga_id) ==> {
                &&& r == Err::<Transition, CurveError>(CurveError::UnknownSaga)
                &&& final(self).pending() == old(self).pending()
                &&& final(self).ledger() == old(self).ledger()
                &&& final(self).display_price() == old(self).display_price()
            },
            old(self).pending() matches Some(s) ==> s.id == saga_id ==> {
                let st = next_status(s.kind, s.status, outcome);
                &&& st == SagaStatus::Fatal ==> r == Err::<Transition, CurveError>(
                    CurveError::CompensationFailed,
                )
                &&& st != SagaStatus::Fatal ==> r == Ok::<Transition, CurveError>(
                    Transition { saga_id, status: st, action: next_action(s, outcome) },
                )
                &&& is_terminal(st) ==> final(self).pending() is None
                &&& !is_terminal(st) ==> final(self).pending() == Some(
                    Saga { status: st, deadline: deadline_after(now, old(self).timeout()), ..s },
                )
                &&& st == SagaStatus::Committed ==> final(self).ledger() == committed_ledger(
                    s,
                    old(self).ledger(),
                ) && final(self).display_price() == s.spot_price
                &&& st != SagaStatus::Committed ==> final(self).ledger() == old(self).ledger()
                    && final(self).display_price() == old(self).display_price()
            },
    {
        let s = match self.saga.take() {
            Some(s) => s,
            None => {
                return Err(CurveError::UnknownSaga);
            },
        };
        if s.id != saga_id {
            self.saga = Some(s);
            return Err(CurveError::UnknownSaga);
        }
        let ghost s0 = s;
        let deadline = now.saturating_add(self.step_timeout);
        match s.status {
            SagaStatus::StepInFlight(i) => match outcome {
                StepOutcome::Success => {
                    let n = step_total(s.kind);
                    if i + 1 < n {
                        let step = step_at(s.kind, i + 1);
                        let action = action_for(step, s.num_tokens, s.amount);
                        let status = SagaStatus::StepInFlight(i + 1);
                        self.saga = Some(Saga { status, deadline, ..s });
                        Ok(Transition { saga_id, status, action: Some(action) })
                    } else {
                        let res = match s.kind {
                            SagaKind::Buy => self.ledger.apply_mint(&s.asset, s.num_tokens, s.amount),
                            SagaKind::Sell => self.ledger.apply_burn(&s.asset, s.num_tokens, s.amount),
                        };
                        proof {
                            assert(res is Ok);
                            assert(self.ledger.model().reserves.dom()
                                =~= old(self).ledger.model().reserves.dom());
                        }
                        self.token_price = s.spot_price;
                        Ok(Transition { saga_id, status: SagaStatus::Committed, action: None })
                    }
                },
                StepOutcome::Failure => {
                    if i == 0 {
                        let action = match s.kind {
                            SagaKind::Buy => Some(Action::Refund { amount: s.amount }),
                            SagaKind::Sell => None,
                        };
                        Ok(Transition { saga_id, status: SagaStatus::Compensated, action })
                    } else {
                        let tokens = s.num_tokens;
                        self.saga = Some(Saga { status: SagaStatus::Compensating, deadline, ..s });
                        Ok(Transition { saga_id, status: SagaStatus::Compensating, action: Some(Action::ReMint { tokens }) })
                    }
                },
            },
            SagaStatus::Compensating => match outcome {
                StepOutcome::Success => Ok(Transition { saga_id, status: SagaStatus::Compensated, action: None }),
                StepOutcome::Failure => Err(CurveError::CompensationFailed),
            },
            _ => {
                proof {
                    assert(false);
                }
                Err(CurveError::UnknownSaga)
            },
        }
    }

    /// Treats the step in flight of saga `saga_id` as failed when `now` has
    /// reached its deadline; before that, nothing changes and `None` comes
    /// back.
    pub fn on_timeout(&mut self, saga_id: u64, now: u64) -> (r: Result<Option<Transition>, CurveError>)
        requires
            old(self).wf(),
        ensures
            final(self).wf(),
            final(self).price_mode() == old(self).price_mode(),
            final(self).floor_price() == old(self).floor_price(),
            final(self).assets() == old(self).assets(),
            final(self).symbols() == old(self).symbols(),
            final(self).owner_id() == old(self).owner_id(),
            final(self).timeout() == old(self).timeout(),
            final(self).next_id() == old(self).next_id(),
            !(old(self).pending() matches Some(s) && s.id == saga_id) ==> {
                &&& r == Err::<Option<Transition>, CurveError>(CurveError::UnknownSaga)
                &&& final(self).pending() == old(self).pending()
                &&& final(self).ledger() == old(self).ledger()
            },
            old(self).pending() matches Some(s) ==> s.id == saga_id && now < s.deadline ==> {
                &&& r == Ok::<Option<Transition>, CurveError>(None)
                &&& final(self).pending() == old(self).pending()
                &&& final(self).ledger() == old(self).ledger()
                &&& final(self).display_price() == old(self).display_price()
            },
            old(self).pending() matches Some(s) ==> s.id == saga_id && now >= s.deadline ==> {
                let st = next_status(s.kind, s.status, StepOutcome::Failure);
                &&& st == SagaStatus::Fatal ==> r == Err::<Option<Transition>, CurveError>(
                    CurveError::CompensationFailed,
                )
                &&& st != SagaStatus::Fatal ==> r == Ok::<Option<Transition>, CurveError>(
                    Some(
                        Transition {
                            saga_id,
                            status: st,
                            action: next_action(s, StepOutcome::Failure),
                        },
                    ),
                )
                &&& is_terminal(st) ==> final(self).pending() is None
                &&& !is_terminal(st) ==> final(self).pending() == Some(
                    Saga { status: st, deadline: deadline_after(now, old(self).timeout()), ..s },
                )
                &&& final(self).ledger() == old(self).ledger()
                &&& final(self).display_price() == old(self).display_price()
            },
    {
        let expired = match &self.saga {
            Some(s) => {
                if s.id != saga_id {
                    return Err(CurveError::UnknownSaga);
                }
                now >= s.deadline
            },
            None => {
                return Err(CurveError::UnknownSaga);
            },
        };
        if !expired {
            return Ok(None);
        }
        match self.on_step_outcome(saga_id, StepOutcome::Failure, now) {
            Ok(t) => Ok(Some(t)),
            Err(e) => Err(e),
        }
    }
}

impl BondingCurve {
    /// Hands the contract to `new_owner`; only the owner may do so.
    pub fn change_owner_id(&mut self, caller: &String, new_owner: String) -> (r: Result<(), CurveError>)
        requires
            old(self).wf(),
        ensures
            final(self).wf(),
            final(self).price_mode() == old(self).price_mode(),
            final(self).floor_price() == old(self).floor_price(),
            final(self).timeout() == old(self).timeout(),
            final(self).next_id() == old(self).next_id(),
            final(self).display_price() == old(self).display_price(),
            final(self).assets() == old(self).assets(),
            final(self).symbols() == old(self).symbols(),
            final(self).ledger() == old(self).ledger(),
            final(self).pending() == old(self).pending(),
            caller@ != old(self).owner_id() ==> r == Err::<(), CurveError>(
                CurveError::PermissionDenied,
            ) && final(self).owner_id() == old(self).owner_id(),
            caller@ == old(self).owner_id() ==> r is Ok && final(self).owner_id() == new_owner@,
    {
        self.registry.transfer_ownership(caller, new_owner)
    }

    /// Whether `caller` may change the curve parameters now: only the owner
    /// may, and not while a saga is in flight.
    pub fn authorize_curve_change(&self, caller: &String) -> (r: Result<(), CurveError>)
        requires
            self.wf(),
        ensures
            r == (if caller@ != self.owner_id() {
                Err(CurveError::PermissionDenied)
            } else if self.pending() is Some {
                Err(CurveError::SagaInFlight)
            } else {
                Ok::<(), CurveError>(())
            }),
    {
        if !self.registry.is_owner(caller) {
            return Err(CurveError::PermissionDenied);
        }
        if self.saga.is_some() {
            return Err(CurveError::SagaInFlight);
        }
        Ok(())
    }

    /// Registers a reserve asset, replacing one of the same symbol; a new
    /// asset starts with an empty reserve, a replaced one keeps its reserve.
    /// Only the owner may do so, not while a saga is in flight, and the
    /// precision is bounded by `MAX_ASSET_DECIMALS`.
    pub fn add_new_coin(
        &mut self,
        caller: &String,
        coin_name: String,
        coin_contract: String,
        decimals: u8,
        stable: bool,
        asset_id: String,
    ) -> (r: Result<(), CurveError>)
        requires
            old(self).wf(),
        ensures
            final(self).wf(),
            final(self).price_mode() == old(self).price_mode(),
            final(self).floor_price() == old(self).floor_price(),
            final(self).timeout() == old(self).timeout(),
            final(self).next_id() == old(self).next_id(),
            final(self).display_price() == old(self).display_price(),
            final(self).owner_id() == old(self).owner_id(),
            final(self).pending() == old(self).pending(),
            final(self).ledger().supply == old(self).ledger().supply,
            r == (if caller@ != old(self).owner_id() {
                Err(CurveError::PermissionDenied)
            } else if old(self).pending() is Some {
                Err(CurveError::SagaInFlight)
            } else if decimals > MAX_ASSET_DECIMALS {
                Err(CurveError::ConfigurationError)
            } else {
                Ok::<(), CurveError>(())
            }),
            r is Err ==> final(self).assets() == old(self).assets() && final(self).symbols()
                == old(self).symbols() && final(self).ledger() == old(self).ledger(),
            r is Ok ==> {
                &&& final(self).assets() == old(self).assets().insert(
                    coin_name@,
                    Asset {
                        symbol: coin_name,
                        reference: coin_contract,
                        decimals,
                        stable,
                        oracle_id: asset_id,
                    },
                )
                &&& old(self).assets().contains_key(coin_name@) ==> final(self).symbols() == old(
                    self,
                ).symbols() && final(self).ledger() == old(self).ledger()
                &&& !old(self).assets().contains_key(coin_name@) ==> final(self).symbols() == old(
                    self,
                ).symbols().push(coin_name@) && final(self).ledger().reserves == old(
                    self,
                ).ledger().reserves.insert(coin_name@, 0)
            },
    {
        if !self.registry.is_owner(caller) {
            return Err(CurveError::PermissionDenied);
        }
        if self.saga.is_some() {
            return Err(CurveError::SagaInFlight);
        }
        if decimals > MAX_ASSET_DECIMALS {
            return Err(CurveError::ConfigurationError);
        }
        let key = coin_name.clone();
        let asset = Asset { symbol: coin_name, reference: coin_contract, decimals, stable, oracle_id: asset_id };
        let res = self.registry.register(caller, asset);
        proof {
            assert(res is Ok);
        }
        self.ledger.open(key);
        assert(self.ledger.model().reserves.dom() =~= self.registry.assets().dom());
        Ok(())
    }

    /// Removes a reserve asset. Only the owner may do so, not while a saga is
    /// in flight, and only for a registered asset whose reserve is empty.
    pub fn delete_coin(&mut self, caller: &String, coin_name: &String) -> (r: Result<(), CurveError>)
        requires
            old(self).wf(),
        ensures
            final(self).wf(),
            final(self).price_mode() == old(self).price_mode(),
            final(self).floor_price() == old(self).floor_price(),
            final(self).timeout() == old(self).timeout(),
            final(self).next_id() == old(self).next_id(),
            final(self).display_price() == old(self).display_price(),
            final(self).owner_id() == old(self).owner_id(),
            final(self).pending() == old(self).pending(),
            final(self).ledger().supply == old(self).ledger().supply,
            r == (if caller@ != old(self).owner_id() {
                Err(CurveError::PermissionDenied)
            } else if old(self).pending() is Some {
                Err(CurveError::SagaInFlight)
            } else if !old(self).assets().contains_key(coin_name@) {
                Err(CurveError::UnknownAsset)
            } else if reserve_in(old(self).ledger(), coin_name@) > 0 {
                Err(CurveError::ReserveNotEmpty)
            } else {
                Ok::<(), CurveError>(())
            }),
            r is Err ==> final(self).assets() == old(self).assets() && final(self).symbols()
                == old(self).symbols() && final(self).ledger() == old(self).ledger(),
            r is Ok ==> final(self).assets() == old(self).assets().remove(coin_name@)
                && final(self).ledger().reserves == old(self).ledger().reserves.remove(coin_name@)
                && final(self).symbols().to_set() == old(self).symbols().to_set().remove(coin_name@),
    {
        if !self.registry.is_owner(caller) {
            return Err(CurveError::PermissionDenied);
        }
        if self.saga.is_some() {
            return Err(CurveError::SagaInFlight);
        }
        if !self.ledger.is_tracked(coin_name) {
            return Err(CurveError::UnknownAsset);
        }
        if self.ledger.reserve_of(coin_name) > 0 {
            return Err(CurveError::ReserveNotEmpty);
        }
        let res = self.registry.delete(caller, coin_name);
        proof {
            assert(res is Ok);
        }
        self.ledger.close(coin_name);
        assert(self.ledger.model().reserves.dom() =~= self.registry.assets().dom());
        Ok(())
    }

    pub fn get_owner_id(&self) -> (r: String)
        ensures
            r@ == self.owner_id(),
    {
        self.registry.owner().clone()
    }

    /// The cached display price: the curve's price at the supply of the last
    /// committed mint or burn, with `VALUE_DECIMALS` decimals.
    pub fn get_token_price(&self) -> (r: u128)
        ensures
            r == self.display_price(),
    {
        self.token_price
    }

    pub fn get_price_floor(&self) -> (r: u128)
        ensures
            r == self.floor_price(),
    {
        self.price_floor
    }

    pub fn get_price_mode(&self) -> (r: PriceMode)
        ensures
            r == self.price_mode(),
    {
        self.mode
    }

    /// The raw token supply.
    pub fn get_total_supply(&self) -> (r: u128)
        ensures
            r == self.ledger().supply,
    {
        self.ledger.total_supply()
    }

    /// The reserve of `coin_name`, in its smallest units.
    pub fn get_res_balance(&self, coin_name: &String) -> (r: Result<u128, CurveError>)
        requires
            self.wf(),
        ensures
            !self.assets().contains_key(coin_name@) ==> r == Err::<u128, CurveError>(
                CurveError::UnknownAsset,
            ),
            self.assets().contains_key(coin_name@) ==> r == Ok::<u128, CurveError>(
                self.ledger().reserves[coin_name@] as u128,
            ),
    {
        if !self.ledger.is_tracked(coin_name) {
            return Err(CurveError::UnknownAsset);
        }
        proof {
            self.ledger.lemma_bounded();
        }
        Ok(self.ledger.reserve_of(coin_name))
    }

    /// The token contract of `coin_name`.
    pub fn get_coin_contract(&self, coin_name: &String) -> (r: Result<String, CurveError>)
        requires
            self.wf(),
        ensures
            !self.assets().contains_key(coin_name@) ==> r == Err::<String, CurveError>(
                CurveError::UnknownAsset,
            ),
            self.assets().contains_key(coin_name@) ==> (r matches Ok(s) && s@
                == self.assets()[coin_name@].reference@),
    {
        match self.registry.lookup(coin_name) {
            Ok(a) => Ok(a.reference.clone()),
            Err(e) => Err(e),
        }
    }

    /// The oracle identifier of `coin_name`.
    pub fn get_asset_id(&self, coin_name: &String) -> (r: Result<String, CurveError>)
        requires
            self.wf(),
        ensures
            !self.assets().contains_key(coin_name@) ==> r == Err::<String, CurveError>(
                CurveError::UnknownAsset,
            ),
            self.assets().contains_key(coin_name@) ==> (r matches Ok(s) && s@
                == self.assets()[coin_name@].oracle_id@),
    {
        match self.registry.lookup(coin_name) {
            Ok(a) => Ok(a.oracle_id.clone()),
            Err(e) => Err(e),
        }
    }

    /// The decimal precision of `coin_name`.
    pub fn get_decimals(&self, coin_name: &String) -> (r: Result<u8, CurveError>)
        requires
            self.wf(),
        ensures
            !self.assets().contains_key(coin_name@) ==> r == Err::<u8, CurveError>(
                CurveError::UnknownAsset,
            ),
            self.assets().contains_key(coin_name@) ==> r == Ok::<u8, CurveError>(
                self.assets()[coin_name@].decimals,
            ),
    {
        match self.registry.lookup(coin_name) {
            Ok(a) => Ok(a.decimals),
            Err(e) => Err(e),
        }
    }

    /// The registered symbols, in the order of first registration.
    pub fn get_coins(&self) -> (r: Vec<String>)
        requires
            self.wf(),
        ensures
            r@.len() == self.symbols().len(),
            forall|i: int| 0 <= i < r@.len() ==> #[trigger] r@[i]@ == self.symbols()[i],
    {
        self.registry.symbol_list()
    }

    /// The token contracts of the registered assets, in symbol order.
    pub fn get_all_coins_contracts(&self) -> (r: Vec<String>)
        requires
            self.wf(),
        ensures
            r@.len() == self.symbols().len(),
            forall|i: int|
                0 <= i < r@.len() ==> #[trigger] r@[i]@ == self.assets()[self.symbols()[i]].reference@,
    {
        self.registry.reference_list()
    }

    /// The symbols of the stable coins, in symbol order.
    pub fn get_stable_coins(&self) -> (r: Vec<String>)
        requires
            self.wf(),
        ensures
            r@.map_values(|s: String| s@) == self.symbols().filter(
                |k: Seq<char>| self.assets()[k].stable,
            ),
    {
        self.registry.stable_list()
    }

    /// Whether `coin_name` is a registered stable coin.
    pub fn check_stable_coin(&self, coin_name: &String) -> (r: bool)
        requires
            self.wf(),
        ensures
            r == (self.assets().contains_key(coin_name@) && self.assets()[coin_name@].stable),
    {
        self.registry.is_stable(coin_name)
    }

    /// The symbol of the first asset, in symbol order, held by the token
    /// contract `contract_name`.
    pub fn get_coin_name_from_contract(&self, contract_name: &String) -> (r: Result<String, CurveError>)
        requires
            self.wf(),
        ensures
            first_with_reference(self.symbols(), self.assets(), contract_name@) matches Some(i)
                ==> (r matches Ok(s) && s@ == self.symbols()[i]),
            first_with_reference(self.symbols(), self.assets(), contract_name@) is None ==> r
                == Err::<String, CurveError>(CurveError::UnknownAsset),
    {
        self.registry.resolve_by_reference(contract_name)
    }
}

impl BondingCurve {
    /// Reads an incoming transfer of the token contract `token_in` carrying
    /// `msg`: the contract must hold a registered asset and the message must
    /// be a buy order. Gives the asset's symbol and the ordered tokens.
    pub fn accept_transfer(&self, token_in: &String, msg: &String) -> (r: Result<(String, u128), CurveError>)
        requires
            self.wf(),
        ensures
            first_with_reference(self.symbols(), self.assets(), token_in@) is None ==> r == Err::<
                (String, u128),
                CurveError,
            >(CurveError::UnknownAsset),
            first_with_reference(self.symbols(), self.assets(), token_in@) matches Some(i) ==> match buy_order(msg@) {
                Err(e) => r == Err::<(String, u128), CurveError>(e),
                Ok(n) => (r matches Ok(p) && p.0@ == self.symbols()[i] && p.1 == n),
            },
    {
        let symbol = match self.registry.resolve_by_reference(token_in) {
            Ok(s) => s,
            Err(e) => {
                return Err(e);
            },
        };
        match parse_buy_message(msg.as_str()) {
            Ok(n) => Ok((symbol, n)),
            Err(e) => Err(e),
        }
    }
}

impl BondingCurve {
    /// The unit price for `coin_name` that a quote needs: none in fixed mode;
    /// in oracle mode, what `oracle` answers to `price_request` for the asset,
    /// which must be a readable price for the asset's oracle identifier.
    pub fn fetch_unit_price<O: Oracle>(&self, oracle: &O, coin_name: &String) -> (r: Result<
        Option<UnitPrice>,
        CurveError,
    >)
        requires
            self.wf(),
        ensures
            !self.assets().contains_key(coin_name@) ==> r == Err::<Option<UnitPrice>, CurveError>(
                CurveError::UnknownAsset,
            ),
            self.assets().contains_key(coin_name@) && self.price_mode() == PriceMode::FixedUnitPrice
                ==> r == Ok::<Option<UnitPrice>, CurveError>(None),
            self.assets().contains_key(coin_name@) && self.price_mode() == PriceMode::OraclePrice
                ==> r == Err::<Option<UnitPrice>, CurveError>(CurveError::ExternalStepFailed)
                || (r matches Ok(Some(p)) && exists|d: Seq<AssetOptionalPrice>|
                price_for(d, self.assets()[coin_name@].oracle_id@) == Ok::<UnitPrice, CurveError>(p)),
    {
        let asset = match self.registry.lookup(coin_name) {
            Ok(a) => a,
            Err(e) => {
                return Err(e);
            },
        };
        match self.mode {
            PriceMode::FixedUnitPrice => Ok(None),
            PriceMode::OraclePrice => {
                let data = oracle.get_price_data(price_request(asset));
                match data.price_of(&asset.oracle_id) {
                    Ok(p) => Ok(Some(p)),
                    Err(e) => Err(e),
                }
            },
        }
    }
}

/// The request a quote sends the price oracle for `asset`: its oracle
/// identifier alone.
pub fn price_request(asset: &Asset) -> (r: Option<Vec<AssetId>>)
    ensures
        r matches Some(v) && v@.len() == 1 && v@[0]@ == asset.oracle_id@,
{
    let mut ids: Vec<AssetId> = Vec::new();
    ids.push(asset.oracle_id.clone());
    Some(ids)
}

impl BondingCurve {
    /// Whether a buy paid in `coin_name` may start now: no saga may be in
    /// flight and the coin must be registered. A host asks this before it
    /// queries the oracle; `begin_buy` enforces the same.
    pub fn check_can_buy(&self, coin_name: &String) -> (r: Result<(), CurveError>)
        requires
            self.wf(),
        ensures
            r == (if self.pending() is Some {
                Err(CurveError::SagaInFlight)
            } else if !self.assets().contains_key(coin_name@) {
                Err(CurveError::UnknownAsset)
            } else {
                Ok::<(), CurveError>(())
            }),
    {
        if self.saga.is_some() {
            return Err(CurveError::SagaInFlight);
        }
        match self.registry.lookup(coin_name) {
            Ok(_) => Ok(()),
            Err(e) => Err(e),
        }
    }

    /// Whether a sell for a refund in `coin_name` may start now: no saga may
    /// be in flight and the coin must be a registered stable coin. A host
    /// asks this before it queries the oracle; `begin_sell` enforces the
    /// same.
    pub fn check_can_sell(&self, coin_name: &String) -> (r: Result<(), CurveError>)
        requires
            self.wf(),
        ensures
            r == (if self.pending() is Some {
                Err(CurveError::SagaInFlight)
            } else if !self.assets().contains_key(coin_name@) {
                Err(CurveError::UnknownAsset)
            } else if !self.assets()[coin_name@].stable {
                Err(CurveError::NotStableCoin)
            } else {
                Ok::<(), CurveError>(())
            }),
    {
        if self.saga.is_some() {
            return Err(CurveError::SagaInFlight);
        }
        match self.registry.lookup(coin_name) {
            Ok(a) => if a.stable {
                Ok(())
            } else {
                Err(CurveError::NotStableCoin)
            },
            Err(e) => Err(e),
        }
    }
}

} // verus!
