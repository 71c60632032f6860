use vstd::prelude::*;

verus! {

/// Every way in which an operation of the library can be refused.
#[derive(Debug, Clone, Copy, PartialEq, Eq, Structural)]
pub enum CurveError {
    /// Bad curve parameters, a non-monotonic curve sample or a stale sample.
    ConfigurationError,
    /// The asset symbol or contract reference is not registered.
    UnknownAsset,
    /// The caller is not the owner.
    PermissionDenied,
    /// The attached payment does not cover the price.
    InsufficientPayment,
    /// The reserve of the asset does not cover the amount.
    InsufficientReserve,
    /// The token supply does not cover the amount.
    InsufficientSupply,
    /// A result does not fit the integer width.
    Overflow,
    /// An external step failed, or an external collaborator gave no data.
    ExternalStepFailed,
    /// A compensating action failed: manual intervention is needed.
    CompensationFailed,
    /// Another saga is still in flight.
    SagaInFlight,
    /// No saga in flight carries this identifier.
    UnknownSaga,
    /// The asset still holds a reserve.
    ReserveNotEmpty,
    /// A transfer message is not a buy order.
    InvalidMessage,
    /// Tokens can only be sold for a stable coin.
    NotStableCoin,
}

} // verus!
