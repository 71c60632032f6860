//! Bonding-curve pricing and reserve accounting.
//!
//! The library keeps the economic state of a bonding-curve token sale: the
//! registry of accepted reserve assets, the reserve balances and token supply,
//! the pricing rules that turn curve values into asset amounts, and the saga
//! state machine that drives a buy or a sell through its external steps and
//! compensates when one of them fails. Evaluating the logistic curve itself is
//! left to the embedding host, which hands the library fixed-point samples of
//! the curve (see `curve`).
pub mod error;
pub mod symbol_map;
pub mod ledger;
pub mod registry;
pub mod curve;
pub mod engine;
pub mod saga;
pub mod decimal;
pub mod oracle;
pub mod vesting;
pub mod laws;

pub use curve::{CurveSample, UnitPrice, SUPPLY_DECIMALS, VALUE_DECIMALS};
pub use engine::{price_request, BondingCurve, PriceMode};
pub use error::CurveError;
pub use oracle::{AssetOptionalPrice, Oracle, Price, PriceData};
pub use registry::{Asset, MAX_ASSET_DECIMALS};
pub use saga::{Action, SagaKind, SagaStatus, SagaStep, StepOutcome, Transition};
pub use vesting::{Schedule, Vestors};
