use vstd::prelude::*;
use crate::decimal::{decimal_of, parse_decimal};
use crate::error::CurveError;
use crate::ledger::{burn_result, mint_result, LedgerModel};

verus! {

/// What a saga does for its caller.
#[derive(Debug, Clone, Copy, PartialEq, Eq, Structural)]
pub enum SagaKind {
    /// Mint tokens against a payment already received.
    Buy,
    /// Burn tokens and pay their refund out of the reserve.
    Sell,
}

/// One external step of a saga.
#[derive(Debug, Clone, Copy, PartialEq, Eq, Structural)]
pub enum SagaStep {
    RequestMint,
    RequestBurn,
    StorageRegistration,
    ExternalTransfer,
}

/// Where a saga stands. The first two are the states of a saga in flight;
/// the last three are terminal.
#[derive(Debug, Clone, Copy, PartialEq, Eq, Structural)]
pub enum SagaStatus {
    /// The step at this index has been issued and its outcome is awaited.
    StepInFlight(usize),
    /// The compensating action has been issued and its outcome is awaited.
    Compensating,
    Committed,
    Compensated,
    Fatal,
}

/// The external action the orchestrator must perform next.
#[derive(Debug, Clone, Copy, PartialEq, Eq, Structural)]
pub enum Action {
    /// Mint `tokens` to the saga's account.
    Mint { tokens: u128 },
    /// Burn `tokens` from the saga's account.
    Burn { tokens: u128 },
    /// Register the saga's account with the asset's token contract.
    RegisterStorage,
    /// Transfer `amount` of the asset to the saga's account.
    Transfer { amount: u128 },
    /// Return the attached payment `amount` to the saga's account.
    Refund { amount: u128 },
    /// Mint back the `tokens` that were burned.
    ReMint { tokens: u128 },
}

/// How a step ended.
#[derive(Debug, Clone, Copy, PartialEq, Eq, Structural)]
pub enum StepOutcome {
    Success,
    Failure,
}

/// The result of a saga transition: the saga's new status and the action to
/// perform, if any.
#[derive(Debug, Clone, Copy, PartialEq, Eq, Structural)]
pub struct Transition {
    pub saga_id: u64,
    pub status: SagaStatus,
    pub action: Option<Action>,
}

/// A buy or a sell in flight.
#[derive(Debug)]
pub struct Saga {
    pub id: u64,
    pub kind: SagaKind,
    /// The account that buys or sells.
    pub account: String,
    /// The reserve asset.
    pub asset: String,
    pub num_tokens: u128,
    /// The payment kept for a buy, the refund paid for a sell.
    pub amount: u128,
    /// The display price once the saga commits.
    pub spot_price: u128,
    pub status: SagaStatus,
    /// The time after which the step in flight counts as failed.
    pub deadline: u64,
}

/// The number of steps of a saga of `kind`.
pub open spec fn step_count(kind: SagaKind) -> nat {
    match kind {
        SagaKind::Buy => 1,
        SagaKind::Sell => 3,
    }
}

/// The step at index `i` of a saga of `kind`: a buy mints; a sell burns,
/// registers the seller with the asset's contract, then transfers.
pub open spec fn step_of(kind: SagaKind, i: nat) -> SagaStep {
    match kind {
        SagaKind::Buy => SagaStep::RequestMint,
        SagaKind::Sell => if i == 0 {
            SagaStep::RequestBurn
        } else if i == 1 {
            SagaStep::StorageRegistration
        } else {
            SagaStep::ExternalTransfer
        },
    }
}

/// The action that performs `step` for a saga of `tokens` and `amount`.
pub open spec fn action_of(step: SagaStep, tokens: u128, amount: u128) -> Action {
    match step {
        SagaStep::RequestMint => Action::Mint { tokens },
        SagaStep::RequestBurn => Action::Burn { tokens },
        SagaStep::StorageRegistration => Action::RegisterStorage,
        SagaStep::ExternalTransfer => Action::Transfer { amount },
    }
}

pub open spec fn is_terminal(st: SagaStatus) -> bool {
    st is Committed || st is Compensated || st is Fatal
}

/// The status a saga moves to on `outcome` of what it awaits. Success of
/// the last step commits; failure of the first step needs no compensation;
/// failure of a later step compensates once; failure of the compensation is
/// fatal.
pub open spec fn next_status(kind: SagaKind, st: SagaStatus, outcome: StepOutcome) -> SagaStatus {
    match st {
        SagaStatus::StepInFlight(i) => match outcome {
            StepOutcome::Success => if i + 1 < step_count(kind) {
                SagaStatus::StepInFlight((i + 1) as usize)
            } else {
                SagaStatus::Committed
            },
            StepOutcome::Failure => if i == 0 {
                SagaStatus::Compensated
            } else {
                SagaStatus::Compensating
            },
        },
        SagaStatus::Compensating => match outcome {
            StepOutcome::Success => SagaStatus::Compensated,
            StepOutcome::Failure => SagaStatus::Fatal,
        },
        _ => st,
    }
}

/// The action that goes with the move from `st` on `outcome`: the next step,
/// the refund of a buy whose first step failed, or the re-mint that
/// compensates a sell whose burn went through.
pub open spec fn next_action(s: Saga, outcome: StepOutcome) -> Option<Action> {
    match next_status(s.kind, s.status, outcome) {
        SagaStatus::StepInFlight(j) => Some(action_of(step_of(s.kind, j as nat), s.num_tokens, s.amount)),
        SagaStatus::Compensating => Some(Action::ReMint { tokens: s.num_tokens }),
        SagaStatus::Compensated => if s.status is StepInFlight && s.kind == SagaKind::Buy {
            Some(Action::Refund { amount: s.amount })
        } else {
            None
        },
        _ => None,
    }
}

/// The ledger once saga `s` commits.
pub open spec fn committed_ledger(s: Saga, m: LedgerModel) -> LedgerModel {
    match s.kind {
        SagaKind::Buy => mint_result(m, s.asset@, s.num_tokens as nat, s.amount as nat)->Ok_0,
        SagaKind::Sell => burn_result(m, s.asset@, s.num_tokens as nat, s.amount as nat)->Ok_0,
    }
}

/// A saga in flight can commit on the ledger `m` as it stands, and its status
/// is one of the states in flight.
pub open spec fn saga_wf(s: Saga, m: LedgerModel) -> bool {
    &&& match s.kind {
        SagaKind::Buy => mint_result(m, s.asset@, s.num_tokens as nat, s.amount as nat) is Ok,
        SagaKind::Sell => burn_result(m, s.asset@, s.num_tokens as nat, s.amount as nat) is Ok,
    }
    &&& match s.status {
        SagaStatus::StepInFlight(i) => i < step_count(s.kind),
        SagaStatus::Compensating => s.kind == SagaKind::Sell,
        _ => false,
    }
}

pub open spec fn deadline_after(now: u64, timeout: u64) -> u64 {
    if now + timeout > u64::MAX {
        u64::MAX
    } else {
        (now + timeout) as u64
    }
}

pub open spec fn successor_id(id: u64) -> u64 {
    if id == u64::MAX {
        0
    } else {
        (id + 1) as u64
    }
}

pub(crate) fn step_at(kind: SagaKind, i: usize) -> (r: SagaStep)
    ensures
        r == step_of(kind, i as nat),
{
    match kind {
        SagaKind::Buy => SagaStep::RequestMint,
        SagaKind::Sell => if i == 0 {
            SagaStep::RequestBurn
        } else if i == 1 {
            SagaStep::StorageRegistration
        } else {
            SagaStep::ExternalTransfer
        },
    }
}

pub(crate) fn step_total(kind: SagaKind) -> (r: usize)
    ensures
        r == step_count(kind),
{
    match kind {
        SagaKind::Buy => 1,
        SagaKind::Sell => 3,
    }
}

pub(crate) fn action_for(step: SagaStep, tokens: u128, amount: u128) -> (r: Action)
    ensures
        r == action_of(step, tokens, amount),
{
    match step {
        SagaStep::RequestMint => Action::Mint { tokens },
        SagaStep::RequestBurn => Action::Burn { tokens },
        SagaStep::StorageRegistration => Action::RegisterStorage,
        SagaStep::ExternalTransfer => Action::Transfer { amount },
    }
}

/// Whether a seller whose token balance reads `balance` (in decimal) holds
/// the `num_tokens` a sell would burn; an unreadable balance is a failed
/// external step.
pub fn check_seller_balance(balance: &str, num_tokens: u128) -> (r: Result<(), CurveError>)
    ensures
        r == match decimal_of(balance@) {
            None => Err(CurveError::ExternalStepFailed),
            Some(b) => if b < num_tokens {
                Err(CurveError::InsufficientSupply)
            } else {
                Ok::<(), CurveError>(())
            },
        },
{
    match parse_decimal(balance) {
        None => Err(CurveError::ExternalStepFailed),
        Some(b) => if b < num_tokens {
            Err(CurveError::InsufficientSupply)
        } else {
            Ok(())
        },
    }
}

/// What becomes of the payment attached to a buy once `begin_buy` has
/// answered: a refused buy returns the whole payment; a started one keeps
/// it with the saga.
pub fn buy_refund(started: &Result<Transition, CurveError>, amount_attached: u128) -> (r: Option<Action>)
    ensures
        started is Err ==> r == Some(Action::Refund { amount: amount_attached }),
        started is Ok ==> r is None,
{
    match started {
        Ok(_) => None,
        Err(_) => Some(Action::Refund { amount: amount_attached }),
    }
}

} // verus!
