use vstd::prelude::*;
use crate::error::CurveError;
use crate::symbol_map::SymbolMap;

verus! {

/// The token supply and the reserve balance of each asset.
pub struct ReserveLedger {
    total_supply: u128,
    reserves: SymbolMap<u128>,
}

/// What the ledger holds: the token supply and the reserve balance of each
/// tracked asset.
pub struct LedgerModel {
    pub supply: nat,
    pub reserves: Map<Seq<char>, nat>,
}

/// The reserve of `symbol` in `m`; an untracked asset holds nothing.
pub open spec fn reserve_in(m: LedgerModel, symbol: Seq<char>) -> nat {
    if m.reserves.contains_key(symbol) {
        m.reserves[symbol]
    } else {
        0
    }
}

/// The outcome of minting `tokens` against a payment of `amount` in `symbol`.
pub open spec fn mint_result(m: LedgerModel, symbol: Seq<char>, tokens: nat, amount: nat) -> Result<
    LedgerModel,
    CurveError,
> {
    if !m.reserves.contains_key(symbol) {
        Err(CurveError::UnknownAsset)
    } else if m.supply + tokens > u128::MAX || m.reserves[symbol] + amount > u128::MAX {
        Err(CurveError::Overflow)
    } else {
        Ok(
            LedgerModel {
                supply: m.supply + tokens,
                reserves: m.reserves.insert(symbol, m.reserves[symbol] + amount),
            },
        )
    }
}

/// The outcome of burning `tokens` against a payout of `amount` in `symbol`.
pub open spec fn burn_result(m: LedgerModel, symbol: Seq<char>, tokens: nat, amount: nat) -> Result<
    LedgerModel,
    CurveError,
> {
    if !m.reserves.contains_key(symbol) {
        Err(CurveError::UnknownAsset)
    } else if amount > m.reserves[symbol] {
        Err(CurveError::InsufficientReserve)
    } else if tokens > m.supply {
        Err(CurveError::InsufficientSupply)
    } else {
        Ok(
            LedgerModel {
                supply: (m.supply - tokens) as nat,
                reserves: m.reserves.insert(symbol, (m.reserves[symbol] - amount) as nat),
            },
        )
    }
}

impl ReserveLedger {
    pub closed spec fn model(&self) -> LedgerModel {
        LedgerModel {
            supply: self.total_supply as nat,
            reserves: self.reserves@.map_values(|v: u128| v as nat),
        }
    }

    /// The tracked assets, in the order in which they were opened.
    pub closed spec fn symbols(&self) -> Seq<Seq<char>> {
        self.reserves.key_seq()
    }

    pub closed spec fn wf(&self) -> bool {
        self.reserves.wf()
    }

    /// Every supply and balance of the ledger fits the integer width.
    pub proof fn lemma_bounded(&self)
        requires
            self.wf(),
        ensures
            self.model().supply <= u128::MAX,
            forall|k: Seq<char>|
                #[trigger] self.model().reserves.contains_key(k) ==> self.model().reserves[k]
                    <= u128::MAX,
            self.model().reserves.dom() == self.symbols().to_set(),
            self.symbols().no_duplicates(),
    {
        self.reserves.lemma_keys();
    }

    pub fn new() -> (r: Self)
        ensures
            r.wf(),
            r.model() == (LedgerModel { supply: 0, reserves: Map::empty() }),
            r.symbols() == Seq::<Seq<char>>::empty(),
    {
        let r = ReserveLedger { total_supply: 0, reserves: SymbolMap::new() };
        assert(r.model().reserves =~= Map::empty());
        r
    }

    pub fn total_supply(&self) -> (r: u128)
        ensures
            r == self.model().supply,
    {
        self.total_supply
    }

    /// The reserve balance of `symbol`, zero where it is not tracked.
    pub fn reserve_of(&self, symbol: &String) -> (r: u128)
        requires
            self.wf(),
        ensures
            r == reserve_in(self.model(), symbol@),
    {
        match self.reserves.get(symbol) {
            Some(v) => *v,
            None => 0,
        }
    }

    pub fn is_tracked(&self, symbol: &String) -> (r: bool)
        requires
            self.wf(),
        ensures
            r == self.model().reserves.contains_key(symbol@),
    {
        self.reserves.contains_key(symbol)
    }

    /// Starts tracking `symbol` with an empty reserve; a tracked asset keeps
    /// its balance.
    pub fn open(&mut self, symbol: String)
        requires
            old(self).wf(),
        ensures
            final(self).wf(),
            old(self).model().reserves.contains_key(symbol@) ==> final(self).model() == old(
                self,
            ).model(),
            !old(self).model().reserves.contains_key(symbol@) ==> final(self).model() == (
            LedgerModel {
                supply: old(self).model().supply,
                reserves: old(self).model().reserves.insert(symbol@, 0),
            }),
    {
        if !self.reserves.contains_key(&symbol) {
            self.reserves.insert(symbol, 0);
            assert(self.model().reserves =~= old(self).model().reserves.insert(symbol@, 0));
        }
    }

    /// Stops tracking `symbol`.
    pub fn close(&mut self, symbol: &String)
        requires
            old(self).wf(),
        ensures
            final(self).wf(),
            final(self).model() == (LedgerModel {
                supply: old(self).model().supply,
                reserves: old(self).model().reserves.remove(symbol@),
            }),
    {
        self.reserves.remove(symbol);
        assert(self.model().reserves =~= old(self).model().reserves.remove(symbol@));
    }

    /// Adds `tokens` to the supply and `amount` to the reserve of `symbol`,
    /// both or neither.
    pub fn apply_mint(&mut self, symbol: &String, tokens: u128, amount: u128) -> (r: Result<
        (),
        CurveError,
    >)
        requires
            old(self).wf(),
        ensures
            final(self).wf(),
            final(self).symbols() == old(self).symbols(),
            match mint_result(old(self).model(), symbol@, tokens as nat, amount as nat) {
                Ok(m) => r is Ok && final(self).model() == m,
                Err(e) => r == Err::<(), CurveError>(e) && final(self).model() == old(self).model(),
            },
    {
        let balance = match self.reserves.get(symbol) {
            Some(v) => *v,
            None => {
                return Err(CurveError::UnknownAsset);
            },
        };
        let supply = match self.total_supply.checked_add(tokens) {
            Some(s) => s,
            None => {
                return Err(CurveError::Overflow);
            },
        };
        let reserve = match balance.checked_add(amount) {
            Some(b) => b,
            None => {
                return Err(CurveError::Overflow);
            },
        };
        self.total_supply = supply;
        self.reserves.insert(symbol.clone(), reserve);
        assert(self.model().reserves =~= old(self).model().reserves.insert(
            symbol@,
            reserve as nat,
        ));
        Ok(())
    }

    /// Takes `tokens` from the supply and `amount` from the reserve of
    /// `symbol`, both or neither.
    pub fn apply_burn(&mut self, symbol: &String, tokens: u128, amount: u128) -> (r: Result<
        (),
        CurveError,
    >)
        requires
            old(self).wf(),
        ensures
            final(self).wf(),
            final(self).symbols() == old(self).symbols(),
            match burn_result(old(self).model(), symbol@, tokens as nat, amount as nat) {
                Ok(m) => r is Ok && final(self).model() == m,
                Err(e) => r == Err::<(), CurveError>(e) && final(self).model() == old(self).model(),
            },
    {
        let balance = match self.reserves.get(symbol) {
            Some(v) => *v,
            None => {
                return Err(CurveError::UnknownAsset);
            },
        };
        if amount > balance {
            return Err(CurveError::InsufficientReserve);
        }
        if tokens > self.total_supply {
            return Err(CurveError::InsufficientSupply);
        }
        self.total_supply = self.total_supply - tokens;
        self.reserves.insert(symbol.clone(), balance - amount);
        assert(self.model().reserves =~= old(self).model().reserves.insert(
            symbol@,
            (balance - amount) as nat,
        ));
        Ok(())
    }
}

} // verus!
