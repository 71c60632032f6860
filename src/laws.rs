use vstd::prelude::*;
use vstd::arithmetic::div_mod::{lemma_fundamental_div_mod, lemma_fundamental_div_mod_converse, lemma_mod_bound};
use crate::curve::{amount_for_value, lemma_pow10_positive, pow10, CurveSample, UnitPrice, VALUE_DECIMALS};
use crate::engine::{burn_quote, mint_quote, PriceMode};
use crate::error::CurveError;
use crate::ledger::{burn_result, mint_result, LedgerModel};
use crate::registry::Asset;

verus! {

/// A committed change of the ledger.
pub enum LedgerOp {
    Mint { symbol: Seq<char>, tokens: nat, amount: nat },
    Burn { symbol: Seq<char>, tokens: nat, amount: nat },
}

pub open spec fn apply_op(m: LedgerModel, op: LedgerOp) -> Result<LedgerModel, CurveError> {
    match op {
        LedgerOp::Mint { symbol, tokens, amount } => mint_result(m, symbol, tokens, amount),
        LedgerOp::Burn { symbol, tokens, amount } => burn_result(m, symbol, tokens, amount),
    }
}

/// The ledger after applying `ops` in order, if every one of them goes
/// through.
pub open spec fn apply_all(m: LedgerModel, ops: Seq<LedgerOp>) -> Option<LedgerModel>
    decreases ops.len(),
{
    if ops.len() == 0 {
        Some(m)
    } else {
        match apply_op(m, ops[0]) {
            Ok(m1) => apply_all(m1, ops.drop_first()),
            Err(_) => None,
        }
    }
}

/// What `ops` pay into the reserve of `symbol`.
pub open spec fn paid_in(ops: Seq<LedgerOp>, symbol: Seq<char>) -> nat
    decreases ops.len(),
{
    if ops.len() == 0 {
        0
    } else {
        (match ops[0] {
            LedgerOp::Mint { symbol: s, amount, .. } => if s == symbol {
                amount
            } else {
                0
            },
            LedgerOp::Burn { .. } => 0,
        }) + paid_in(ops.drop_first(), symbol)
    }
}

/// What `ops` pay out of the reserve of `symbol`.
pub open spec fn paid_out(ops: Seq<LedgerOp>, symbol: Seq<char>) -> nat
    decreases ops.len(),
{
    if ops.len() == 0 {
        0
    } else {
        (match ops[0] {
            LedgerOp::Burn { symbol: s, amount, .. } => if s == symbol {
                amount
            } else {
                0
            },
            LedgerOp::Mint { .. } => 0,
        }) + paid_out(ops.drop_first(), symbol)
    }
}

/// The tokens that `ops` mint.
pub open spec fn minted(ops: Seq<LedgerOp>) -> nat
    decreases ops.len(),
{
    if ops.len() == 0 {
        0
    } else {
        (match ops[0] {
            LedgerOp::Mint { tokens, .. } => tokens,
            LedgerOp::Burn { .. } => 0,
        }) + minted(ops.drop_first())
    }
}

/// The tokens that `ops` burn.
pub open spec fn burned(ops: Seq<LedgerOp>) -> nat
    decreases ops.len(),
{
    if ops.len() == 0 {
        0
    } else {
        (match ops[0] {
            LedgerOp::Burn { tokens, .. } => tokens,
            LedgerOp::Mint { .. } => 0,
        }) + burned(ops.drop_first())
    }
}

/// Minting `tokens` for exactly the price quoted between two curve samples,
/// then burning the same tokens priced from the same two samples taken the
/// other way round, refunds exactly what was paid and brings the supply and
/// every reserve back to where they were.
pub proof fn lemma_mint_then_burn_restores(
    assets: Map<Seq<char>, Asset>,
    m: LedgerModel,
    mode: PriceMode,
    tokens: nat,
    symbol: Seq<char>,
    before: CurveSample,
    after: CurveSample,
    oracle: Option<UnitPrice>,
)
    requires
        mint_quote(assets, m.supply, mode, tokens, symbol, before, after, oracle) is Ok,
        mint_result(
            m,
            symbol,
            tokens,
            mint_quote(assets, m.supply, mode, tokens, symbol, before, after, oracle)->Ok_0 as nat,
        ) is Ok,
    ensures
        ({
            let paid = mint_quote(assets, m.supply, mode, tokens, symbol, before, after, oracle)->Ok_0;
            let minted_state = mint_result(m, symbol, tokens, paid as nat)->Ok_0;
            &&& burn_quote(assets, minted_state.supply, mode, tokens, symbol, after, before, oracle)
                == Ok::<u128, CurveError>(paid)
            &&& burn_result(minted_state, symbol, tokens, paid as nat) == Ok::<
                LedgerModel,
                CurveError,
            >(m)
        }),
{
    let paid = mint_quote(assets, m.supply, mode, tokens, symbol, before, after, oracle)->Ok_0;
    let m2 = mint_result(m, symbol, tokens, paid as nat)->Ok_0;
    assert((m2.supply - tokens) as nat == m.supply);
    let m3 = burn_result(m2, symbol, tokens, paid as nat)->Ok_0;
    assert(m3.reserves =~= m.reserves);
}

/// A burn never takes a reserve below zero: one whose payout exceeds the
/// reserve is refused with `InsufficientReserve`, and one that goes through
/// takes exactly its payout.
pub proof fn lemma_burn_never_overdraws(m: LedgerModel, symbol: Seq<char>, tokens: nat, amount: nat)
    requires
        m.reserves.contains_key(symbol),
    ensures
        amount > m.reserves[symbol] ==> burn_result(m, symbol, tokens, amount) == Err::<
            LedgerModel,
            CurveError,
        >(CurveError::InsufficientReserve),
        burn_result(m, symbol, tokens, amount) matches Ok(m2) ==> m2.reserves[symbol] + amount
            == m.reserves[symbol] && m2.reserves.dom() == m.reserves.dom(),
{
    if let Ok(m2) = burn_result(m, symbol, tokens, amount) {
        assert(m2.reserves.dom() =~= m.reserves.dom());
    }
}

/// Over any sequence of committed mints and burns, every reserve moves by
/// exactly what was paid in minus what was paid out, and the supply by
/// exactly what was minted minus what was burned: no update is lost and no
/// reserve is overdrawn.
pub proof fn lemma_committed_ops_conserve(m: LedgerModel, ops: Seq<LedgerOp>, symbol: Seq<char>)
    requires
        m.reserves.contains_key(symbol),
        apply_all(m, ops) is Some,
    ensures
        apply_all(m, ops)->Some_0.reserves.contains_key(symbol),
        apply_all(m, ops)->Some_0.reserves[symbol] + paid_out(ops, symbol) == m.reserves[symbol]
            + paid_in(ops, symbol),
        apply_all(m, ops)->Some_0.supply + burned(ops) == m.supply + minted(ops),
    decreases ops.len(),
{
    if ops.len() > 0 {
        let m1 = apply_op(m, ops[0])->Ok_0;
        assert(m1.reserves.contains_key(symbol));
        lemma_committed_ops_conserve(m1, ops.drop_first(), symbol);
    }
}

/// Rounding down the parts of a sum loses less than one whole unit:
/// `x/d + y/d <= (x+y)/d <= x/d + y/d + 1`.
pub proof fn lemma_floor_of_sum(x: nat, y: nat, d: nat)
    requires
        d > 0,
    ensures
        x / d + y / d <= (x + y) / d,
        (x + y) / d <= x / d + y / d + 1,
{
    let (xi, yi, di) = (x as int, y as int, d as int);
    lemma_fundamental_div_mod(xi, di);
    lemma_fundamental_div_mod(yi, di);
    lemma_mod_bound(xi, di);
    lemma_mod_bound(yi, di);
    let q = xi / di + yi / di;
    let r = xi % di + yi % di;
    assert(xi + yi == q * di + r) by (nonlinear_arith)
        requires
            xi == di * (xi / di) + xi % di,
            yi == di * (yi / di) + yi % di,
            q == xi / di + yi / di,
            r == xi % di + yi % di,
    {}
    if r < di {
        lemma_fundamental_div_mod_converse(xi + yi, di, q, r);
    } else {
        assert(xi + yi == (q + 1) * di + (r - di)) by (nonlinear_arith)
            requires
                xi + yi == q * di + r,
        {}
        lemma_fundamental_div_mod_converse(xi + yi, di, q + 1, r - di);
    }
}

proof fn lemma_value_split(low: nat, high: nat, price: UnitPrice)
    requires
        price.multiplier > 0,
        low <= high,
    ensures
        amount_for_value(low, price) + amount_for_value((high - low) as nat, price)
            <= amount_for_value(high, price),
        amount_for_value(high, price) <= amount_for_value(low, price) + amount_for_value(
            (high - low) as nat,
            price,
        ) + 1,
{
    let k = pow10(price.decimals as nat);
    let d = price.multiplier as nat * pow10(VALUE_DECIMALS as nat);
    lemma_pow10_positive(VALUE_DECIMALS as nat);
    assert(d > 0) by (nonlinear_arith)
        requires
            d == price.multiplier as nat * pow10(VALUE_DECIMALS as nat),
            price.multiplier > 0,
            pow10(VALUE_DECIMALS as nat) > 0,
    {}
    assert(low * k + (high - low) as nat * k == high * k) by (nonlinear_arith)
        requires
            low <= high,
    {}
    lemma_floor_of_sum(low * k, (high - low) as nat * k, d);
}

/// A mint that pays at most the quoted price keeps the reserve of an asset
/// within the curve value of the supply: if the reserve was at most the
/// value of the integral at the current sample, then with the payment it is
/// at most the value of the integral at the target sample.
pub proof fn lemma_mint_keeps_reserve_bound(
    current: nat,
    target: nat,
    price: UnitPrice,
    reserve: nat,
    paid: nat,
)
    requires
        price.multiplier > 0,
        current <= target,
        reserve <= amount_for_value(current, price),
        paid <= amount_for_value((target - current) as nat, price),
    ensures
        reserve + paid <= amount_for_value(target, price),
{
    lemma_value_split(current, target, price);
}

/// A burn refunded at the quoted price keeps the reserve within the curve
/// value of the supply, up to the one unit that rounding the refund down
/// can leave behind.
pub proof fn lemma_burn_keeps_reserve_bound(
    current: nat,
    target: nat,
    price: UnitPrice,
    reserve: nat,
    refund: nat,
)
    requires
        price.multiplier > 0,
        target <= current,
        reserve <= amount_for_value(current, price),
        refund == amount_for_value((current - target) as nat, price),
        refund <= reserve,
    ensures
        reserve - refund <= amount_for_value(target, price) + 1,
{
    lemma_value_split(target, current, price);
}

} // verus!
