use vstd::prelude::*;

use crate::currency::{Amount, Currency};

verus! {

/// Identifier of a quote.
#[derive(Clone, Copy, Debug, PartialEq, Eq, Structural)]
pub struct ExchangeId(pub u128);

/// Identifier of the user a quote was issued to.
#[derive(Clone, Copy, Debug, PartialEq, Eq, Structural)]
pub struct UserId(pub u128);

/// Number of fixed-point steps in a rate of one.
pub const RATE_SCALE: u128 = 1_000_000_000_000_000_000;

/// A conversion rate in fixed point: `scaled / RATE_SCALE` display units of the
/// target currency for each display unit of the source currency.
#[derive(Clone, Copy, Debug, PartialEq, Eq, Structural)]
pub struct Rate {
    pub scaled: u128,
}

/// Seconds since the Unix epoch.
pub type Timestamp = i64;

/// An issued quote.
#[derive(Clone, Copy, Debug, PartialEq, Eq, Structural)]
pub struct Exchange {
    pub id: ExchangeId,
    pub from_: Currency,
    pub to_: Currency,
    pub amount: Amount,
    pub expiration: Timestamp,
    pub rate: Rate,
    pub user_id: UserId,
    pub created_at: Timestamp,
    pub updated_at: Timestamp,
}

/// A quote about to be stored.
#[derive(Clone, Copy, Debug, PartialEq, Eq, Structural)]
pub struct NewExchange {
    pub id: ExchangeId,
    pub from_: Currency,
    pub to_: Currency,
    pub amount: Amount,
    pub expiration: Timestamp,
    pub rate: Rate,
    pub user_id: UserId,
}

/// A request for a quote.
#[derive(Clone, Copy, Debug, PartialEq, Eq, Structural)]
pub struct GetRate {
    pub id: ExchangeId,
    pub from: Currency,
    pub to: Currency,
    pub amount: Amount,
}

/// The parameters a stored quote is matched against.
#[derive(Clone, Copy, Debug, PartialEq, Eq, Structural)]
pub struct GetExchange {
    pub id: ExchangeId,
    pub from: Currency,
    pub to: Currency,
    pub actual_amount: Amount,
}

/// A request to redeem a quote for `actual_amount`.
#[derive(Clone, Copy, Debug, PartialEq, Eq, Structural)]
pub struct CreateSellOrder {
    pub id: ExchangeId,
    pub from: Currency,
    pub to: Currency,
    pub actual_amount: Amount,
}

/// The record of a completed redemption.
#[derive(Clone, Copy, Debug, PartialEq, Eq, Structural)]
pub struct SellOrder {
    pub from: Currency,
    pub to: Currency,
    pub actual_amount: Amount,
}

impl NewExchange {
    /// The quote answering `req` under the freshly generated identifier `id`,
    /// at `rate`, valid until `expiration`. The identifier of the request is
    /// not used.
    pub fn new(
        id: ExchangeId,
        req: GetRate,
        expiration: Timestamp,
        rate: Rate,
        user_id: UserId,
    ) -> (r: Self)
        ensures
            r == (NewExchange {
                id,
                from_: req.from,
                to_: req.to,
                amount: req.amount,
                expiration,
                rate,
                user_id,
            }),
    {
        NewExchange {
            id,
            from_: req.from,
            to_: req.to,
            amount: req.amount,
            expiration,
            rate,
            user_id,
        }
    }
}

/// The stored form of `n`, created and last updated at `now`.
pub open spec fn stored_exchange(n: NewExchange, now: Timestamp) -> Exchange {
    Exchange {
        id: n.id,
        from_: n.from_,
        to_: n.to_,
        amount: n.amount,
        expiration: n.expiration,
        rate: n.rate,
        user_id: n.user_id,
        created_at: now,
        updated_at: now,
    }
}

impl Exchange {
    /// The stored form of `new_exchange`, created and last updated at `now`.
    pub fn from_new(new_exchange: NewExchange, now: Timestamp) -> (r: Self)
        ensures
            r == stored_exchange(new_exchange, now),
    {
        Exchange {
            id: new_exchange.id,
            from_: new_exchange.from_,
            to_: new_exchange.to_,
            amount: new_exchange.amount,
            expiration: new_exchange.expiration,
            rate: new_exchange.rate,
            user_id: new_exchange.user_id,
            created_at: now,
            updated_at: now,
        }
    }
}

impl From<CreateSellOrder> for GetExchange {
    fn from(sell: CreateSellOrder) -> (r: Self) {
        GetExchange { id: sell.id, from: sell.from, to: sell.to, actual_amount: sell.actual_amount }
    }
}

impl vstd::std_specs::convert::FromSpecImpl<CreateSellOrder> for GetExchange {
    open spec fn obeys_from_spec() -> bool {
        true
    }

    open spec fn from_spec(sell: CreateSellOrder) -> Self {
        GetExchange { id: sell.id, from: sell.from, to: sell.to, actual_amount: sell.actual_amount }
    }
}

} // verus!
