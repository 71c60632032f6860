use vstd::prelude::*;
use crate::error::CurveError;
use crate::symbol_map::SymbolMap;

verus! {

/// The largest decimal precision an asset may have: `10^38` is the largest
/// power of ten that fits a `u128`.
pub const MAX_ASSET_DECIMALS: u8 = 38;

/// A reserve asset that the curve accepts.
#[derive(Debug, Clone)]
pub struct Asset {
    /// Unique key of the asset.
    pub symbol: String,
    /// The token contract that holds the asset.
    pub reference: String,
    /// Number of decimals of the asset's smallest unit.
    pub decimals: u8,
    /// Whether the asset is a stable coin.
    pub stable: bool,
    /// Identifier of the asset at the price oracle.
    pub oracle_id: String,
}

/// The registered assets and the owner who may change them.
pub struct CoinRegistry {
    owner: String,
    assets: SymbolMap<Asset>,
}

/// Position of the first symbol of `keys` whose asset has `reference`.
pub open spec fn first_with_reference(
    keys: Seq<Seq<char>>,
    assets: Map<Seq<char>, Asset>,
    reference: Seq<char>,
) -> Option<int> {
    if exists|i: int| 0 <= i < keys.len() && #[trigger] assets[keys[i]].reference@ == reference {
        Some(
            choose|i: int|
                0 <= i < keys.len() && #[trigger] assets[keys[i]].reference@ == reference && forall|
                    j: int,
                | 0 <= j < i ==> #[trigger] assets[keys[j]].reference@ != reference,
        )
    } else {
        None
    }
}

impl CoinRegistry {
    pub closed spec fn owner_id(&self) -> Seq<char> {
        self.owner@
    }

    /// The registered assets by symbol.
    pub closed spec fn assets(&self) -> Map<Seq<char>, Asset> {
        self.assets@
    }

    /// The registered symbols, in the order of first registration.
    pub closed spec fn symbols(&self) -> Seq<Seq<char>> {
        self.assets.key_seq()
    }

    pub closed spec fn wf(&self) -> bool {
        &&& self.assets.wf()
        &&& forall|k: Seq<char>| #[trigger]
            self.assets@.contains_key(k) ==> self.assets@[k].symbol@ == k
                && self.assets@[k].decimals <= MAX_ASSET_DECIMALS
    }

    /// The symbol order holds each registered symbol exactly once.
    pub proof fn lemma_symbols(&self)
        requires
            self.wf(),
        ensures
            self.symbols().no_duplicates(),
            self.symbols().to_set() == self.assets().dom(),
            self.symbols().len() == self.assets().len(),
            forall|k: Seq<char>| #[trigger]
                self.assets().contains_key(k) ==> self.assets()[k].symbol@ == k
                    && self.assets()[k].decimals <= MAX_ASSET_DECIMALS,
    {
        self.assets.lemma_keys();
    }

    pub fn new(owner: String) -> (r: Self)
        ensures
            r.wf(),
            r.owner_id() == owner@,
            r.assets() == Map::<Seq<char>, Asset>::empty(),
            r.symbols() == Seq::<Seq<char>>::empty(),
    {
        CoinRegistry { owner, assets: SymbolMap::new() }
    }

    pub fn owner(&self) -> (r: &String)
        ensures
            r@ == self.owner_id(),
    {
        &self.owner
    }

    /// Whether `caller` is the owner.
    pub fn is_owner(&self, caller: &String) -> (r: bool)
        ensures
            r == (caller@ == self.owner_id()),
    {
        self.owner == *caller
    }

    /// Hands the registry to `new_owner`; only the owner may do so.
    pub fn transfer_ownership(&mut self, caller: &String, new_owner: String) -> (r: Result<
        (),
        CurveError,
    >)
        requires
            old(self).wf(),
        ensures
            final(self).wf(),
            final(self).assets() == old(self).assets(),
            final(self).symbols() == old(self).symbols(),
            caller@ != old(self).owner_id() ==> r == Err::<(), CurveError>(
                CurveError::PermissionDenied,
            ) && final(self).owner_id() == old(self).owner_id(),
            caller@ == old(self).owner_id() ==> r is Ok && final(self).owner_id() == new_owner@,
    {
        if !self.is_owner(caller) {
            return Err(CurveError::PermissionDenied);
        }
        self.owner = new_owner;
        Ok(())
    }

    /// Registers `asset` under its symbol, replacing an asset of the same
    /// symbol. Only the owner may register, and the precision is bounded by
    /// `MAX_ASSET_DECIMALS`.
    pub fn register(&mut self, caller: &String, asset: Asset) -> (r: Result<(), CurveError>)
        requires
            old(self).wf(),
        ensures
            final(self).wf(),
            final(self).owner_id() == old(self).owner_id(),
            caller@ != old(self).owner_id() ==> r == Err::<(), CurveError>(
                CurveError::PermissionDenied,
            ),
            caller@ == old(self).owner_id() && asset.decimals > MAX_ASSET_DECIMALS ==> r == Err::<
                (),
                CurveError,
            >(CurveError::ConfigurationError),
            r is Err ==> final(self).assets() == old(self).assets() && final(self).symbols()
                == old(self).symbols(),
            caller@ == old(self).owner_id() && asset.decimals <= MAX_ASSET_DECIMALS ==> {
                &&& r is Ok
                &&& final(self).assets() == old(self).assets().insert(asset.symbol@, asset)
                &&& old(self).assets().contains_key(asset.symbol@) ==> final(self).symbols()
                    == old(self).symbols()
                &&& !old(self).assets().contains_key(asset.symbol@) ==> final(self).symbols()
                    == old(self).symbols().push(asset.symbol@)
            },
    {
        if !self.is_owner(caller) {
            return Err(CurveError::PermissionDenied);
        }
        if asset.decimals > MAX_ASSET_DECIMALS {
            return Err(CurveError::ConfigurationError);
        }
        let symbol = asset.symbol.clone();
        self.assets.insert(symbol, asset);
        Ok(())
    }

    /// Removes `symbol`; only the owner may do so, and only a registered
    /// symbol can be removed.
    pub fn delete(&mut self, caller: &String, symbol: &String) -> (r: Result<(), CurveError>)
        requires
            old(self).wf(),
        ensures
            final(self).wf(),
            final(self).owner_id() == old(self).owner_id(),
            r == (if caller@ != old(self).owner_id() {
                Err(CurveError::PermissionDenied)
            } else if !old(self).assets().contains_key(symbol@) {
                Err(CurveError::UnknownAsset)
            } else {
                Ok::<(), CurveError>(())
            }),
            r is Err ==> final(self).assets() == old(self).assets() && final(self).symbols()
                == old(self).symbols(),
            r is Ok ==> final(self).assets() == old(self).assets().remove(symbol@)
                && final(self).symbols().to_set() == old(self).symbols().to_set().remove(symbol@),
    {
        if !self.is_owner(caller) {
            return Err(CurveError::PermissionDenied);
        }
        if !self.assets.contains_key(symbol) {
            return Err(CurveError::UnknownAsset);
        }
        self.assets.remove(symbol);
        Ok(())
    }

    /// The asset registered under `symbol`.
    pub fn lookup(&self, symbol: &String) -> (r: Result<&Asset, CurveError>)
        requires
            self.wf(),
        ensures
            !self.assets().contains_key(symbol@) ==> r == Err::<&Asset, CurveError>(
                CurveError::UnknownAsset,
            ),
            self.assets().contains_key(symbol@) ==> (r matches Ok(a) && *a == self.assets()[symbol@]),
    {
        match self.assets.get(symbol) {
            Some(a) => Ok(a),
            None => Err(CurveError::UnknownAsset),
        }
    }

    /// The symbols, in the order of first registration.
    pub fn symbol_list(&self) -> (r: Vec<String>)
        requires
            self.wf(),
        ensures
            r@.len() == self.symbols().len(),
            forall|i: int| 0 <= i < r@.len() ==> #[trigger] r@[i]@ == self.symbols()[i],
    {
        let mut out: Vec<String> = Vec::new();
        let n = self.assets.len();
        proof {
            self.lemma_symbols();
        }
        let mut i: usize = 0;
        while i < n
            invariant
                self.wf(),
                n == self.symbols().len(),
                i <= n,
                out@.len() == i,
                forall|j: int| 0 <= j < i ==> #[trigger] out@[j]@ == self.symbols()[j],
            decreases n - i,
        {
            out.push(self.assets.key_at(i).clone());
            i = i + 1;
        }
        out
    }

    /// The contract references of the assets, in symbol order.
    pub fn reference_list(&self) -> (r: Vec<String>)
        requires
            self.wf(),
        ensures
            r@.len() == self.symbols().len(),
            forall|i: int|
                0 <= i < r@.len() ==> #[trigger] r@[i]@ == self.assets()[self.symbols()[i]].reference@,
    {
        let mut out: Vec<String> = Vec::new();
        let n = self.assets.len();
        proof {
            self.lemma_symbols();
        }
        let mut i: usize = 0;
        while i < n
            invariant
                self.wf(),
                n == self.symbols().len(),
                i <= n,
                out@.len() == i,
                forall|j: int|
                    0 <= j < i ==> #[trigger] out@[j]@ == self.assets()[self.symbols()[j]].reference@,
            decreases n - i,
        {
            out.push(self.assets.value_at(i).reference.clone());
            i = i + 1;
        }
        out
    }

    /// The symbols of the stable coins, in symbol order.
    pub fn stable_list(&self) -> (r: Vec<String>)
        requires
            self.wf(),
        ensures
            r@.map_values(|s: String| s@) == self.symbols().filter(
                |k: Seq<char>| self.assets()[k].stable,
            ),
    {
        let mut out: Vec<String> = Vec::new();
        let n = self.assets.len();
        proof {
            self.lemma_symbols();
        }
        let ghost pick = |k: Seq<char>| self.assets()[k].stable;
        let mut i: usize = 0;
        while i < n
            invariant
                self.wf(),
                n == self.symbols().len(),
                i <= n,
                pick == (|k: Seq<char>| self.assets()[k].stable),
                out@.map_values(|s: String| s@) == self.symbols().subrange(0, i as int).filter(pick),
            decreases n - i,
        {
            let ghost before = self.symbols().subrange(0, i as int);
            let a = self.assets.value_at(i);
            let ghost prev = out@;
            if a.stable {
                let k = self.assets.key_at(i).clone();
                out.push(k);
                assert(out@.map_values(|s: String| s@) =~= prev.map_values(|s: String| s@).push(
                    self.symbols()[i as int],
                ));
            }
            proof {
                let after = self.symbols().subrange(0, i + 1);
                assert(after =~= before.push(self.symbols()[i as int]));
                                assert(after.filter(pick) == before.filter(pick) + (if pick(
                    self.symbols()[i as int],
                ) {
                    seq![self.symbols()[i as int]]
                } else {
                    Seq::<Seq<char>>::empty()
                })) by {
                    reveal_with_fuel(Seq::filter, 1);
                    assert(after.drop_last() =~= before);
                }
            }
            i = i + 1;
            assert(out@.map_values(|s: String| s@) =~= self.symbols().subrange(0, i as int).filter(
                pick,
            ));
        }
        assert(self.symbols().subrange(0, n as int) =~= self.symbols());
        out
    }

    /// Whether `symbol` is a registered stable coin.
    pub fn is_stable(&self, symbol: &String) -> (r: bool)
        requires
            self.wf(),
        ensures
            r == (self.assets().contains_key(symbol@) && self.assets()[symbol@].stable),
    {
        match self.assets.get(symbol) {
            Some(a) => a.stable,
            None => false,
        }
    }

    /// The symbol of the first asset, in symbol order, whose contract
    /// reference is `reference`.
    pub fn resolve_by_reference(&self, reference: &String) -> (r: Result<String, CurveError>)
        requires
            self.wf(),
        ensures
            first_with_reference(self.symbols(), self.assets(), reference@) matches Some(i) ==> (r
                matches Ok(s) && s@ == self.symbols()[i]),
            first_with_reference(self.symbols(), self.assets(), reference@) is None ==> r == Err::<
                String,
                CurveError,
            >(CurveError::UnknownAsset),
    {
        let n = self.assets.len();
        proof {
            self.lemma_symbols();
        }
        let ghost keys = self.symbols();
        let ghost assets = self.assets();
        let mut i: usize = 0;
        while i < n
            invariant
                self.wf(),
                keys == self.symbols(),
                assets == self.assets(),
                n == keys.len(),
                i <= n,
                forall|j: int| 0 <= j < i ==> #[trigger] assets[keys[j]].reference@ != reference@,
            decreases n - i,
        {
            if self.assets.value_at(i).reference == *reference {
                proof {
                    let w = i as int;
                    assert(0 <= w < keys.len() && assets[keys[w]].reference@ == reference@);
                    let c = first_with_reference(keys, assets, reference@).unwrap();
                    if c < w {
                        assert(assets[keys[c]].reference@ != reference@);
                    }
                    if w < c {
                        assert(assets[keys[w]].reference@ != reference@);
                    }
                }
                return Ok(self.assets.key_at(i).clone());
            }
            i = i + 1;
        }
        Err(CurveError::UnknownAsset)
    }
}

} // verus!
