//! The error taxonomy of the sale controller. Every error aborts the whole
//! request; no state is persisted on any failure.

use vstd::prelude::*;

verus! {

/// Why an attached payment was rejected. Mirrors the payment-validation
/// failures surfaced to callers: zero or missing funds, several
/// denominations at once, or a single coin of the wrong denomination
/// (`MissingDenom` carries the denomination that was required).
#[derive(Debug, PartialEq, Eq)]
pub enum PaymentError {
    NoFunds,
    MultipleDenoms,
    MissingDenom(String),
}

/// Every failure a request can end with.
#[derive(Debug, PartialEq, Eq)]
pub enum ContractError {
    /// A required stored value (manager, configuration, or counter) is absent.
    NotFound,
    /// A request parameter does not refer to anything, such as an item index
    /// past the end of the configured item list.
    InvalidParam,
    /// A submitted configuration is unusable.
    InvalidConfig,
    /// The attached payment was rejected.
    PaymentError(PaymentError),
    /// The caller is not the manager on a privileged call.
    Unauthorized,
    /// A sale configuration already exists; at most one may exist at a time.
    ConfigAlreadyExists,
    /// The sale window does not cover the current time, or an already ended
    /// sale was asked to stop.
    SaleNoActive,
}

} // verus!
