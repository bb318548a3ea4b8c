use vstd::prelude::*;

use crate::exchange::ExchangeId;
use crate::limits::ValidationFailure;

verus! {

/// Every way an operation on quotes can fail.
#[derive(Clone, Copy, Debug, PartialEq, Eq, Structural)]
pub enum ExchangeError {
    /// A malformed or negative amount.
    InvalidAmount,
    /// The amount is outside the limits of its currency.
    Validation(ValidationFailure),
    /// No rate could be obtained for the pair.
    RateUnavailable,
    /// The system clock gave no usable reading.
    ClockUnavailable,
    /// No live, unredeemed quote matches the redemption.
    QuoteNotFound,
    /// The expiration would move backward, or cannot be represented.
    InvalidExpiration,
    /// A quote with this identifier is already stored.
    StorageConflict(ExchangeId),
    /// No quote with this identifier is stored.
    NotFound(ExchangeId),
}

} // verus!
