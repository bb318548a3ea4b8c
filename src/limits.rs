use vstd::prelude::*;

use crate::currency::{Amount, Currency};

verus! {

/// Inclusive bounds on a tradable amount, in smallest units.
#[derive(Clone, Copy, Debug, PartialEq, Eq, Structural)]
pub struct Limit {
    pub min: Amount,
    pub max: Amount,
}

/// The limit configured for each currency.
#[derive(Clone, Copy, Debug, PartialEq, Eq, Structural)]
pub struct CurrenciesLimits {
    pub btc: Limit,
    pub eth: Limit,
    pub stq: Limit,
}

/// An amount fell outside the limit configured for its currency.
#[derive(Clone, Copy, Debug, PartialEq, Eq, Structural)]
pub struct ValidationFailure {
    pub currency: Currency,
    pub min: Amount,
    pub max: Amount,
}

pub open spec fn limit_of(c: Currency, limits: CurrenciesLimits) -> Limit {
    match c {
        Currency::Btc => limits.btc,
        Currency::Eth => limits.eth,
        Currency::Stq => limits.stq,
    }
}

/// Whether `amount` lies within `limit`, both bounds included.
pub open spec fn within_limit(amount: Amount, limit: Limit) -> bool {
    limit.min.0 <= amount.0 <= limit.max.0
}

impl CurrenciesLimits {
    /// The limit configured for `c`.
    pub fn limit_for(&self, c: Currency) -> (r: Limit)
        ensures
            r == limit_of(c, *self),
    {
        match c {
            Currency::Btc => self.btc,
            Currency::Eth => self.eth,
            Currency::Stq => self.stq,
        }
    }
}

/// Checks `amount` of currency `from` against the configured limits.
pub fn validate(from: Currency, amount: Amount, limits: CurrenciesLimits) -> (r: Result<
    (),
    ValidationFailure,
>)
    ensures
        r is Ok <==> within_limit(amount, limit_of(from, limits)),
        r is Err ==> r == Err::<(), ValidationFailure>(
            ValidationFailure {
                currency: from,
                min: limit_of(from, limits).min,
                max: limit_of(from, limits).max,
            },
        ),
{
    let limit = limits.limit_for(from);
    if amount.0 < limit.min.0 || amount.0 > limit.max.0 {
        Err(ValidationFailure { currency: from, min: limit.min, max: limit.max })
    } else {
        Ok(())
    }
}

} // verus!
