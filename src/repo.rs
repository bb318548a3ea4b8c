use vstd::prelude::*;

use crate::error::ExchangeError;
use crate::exchange::{
    stored_exchange, Exchange, ExchangeId, GetExchange, NewExchange, SellOrder, Timestamp,
};

verus! {

/// A stored quote and whether it has been redeemed.
#[derive(Clone, Copy, Debug, PartialEq, Eq, Structural)]
pub struct StoredExchange {
    pub exchange: Exchange,
    pub redeemed: bool,
}

/// No two stored quotes share an identifier.
pub open spec fn ids_unique(s: Seq<StoredExchange>) -> bool {
    forall|i: int, j: int|
        0 <= i < s.len() && 0 <= j < s.len() && i != j ==> s[i].exchange.id != s[j].exchange.id
}

/// Some stored quote has identifier `id`.
pub open spec fn has_id(s: Seq<StoredExchange>, id: ExchangeId) -> bool {
    exists|i: int| 0 <= i < s.len() && s[i].exchange.id == id
}

/// `r` can be redeemed by `req` at time `now`: same identifier and currency
/// pair, enough reserved, not yet expired and not yet redeemed.
pub open spec fn live_match(r: StoredExchange, req: GetExchange, now: Timestamp) -> bool {
    &&& r.exchange.id == req.id
    &&& r.exchange.from_ == req.from
    &&& r.exchange.to_ == req.to
    &&& r.exchange.amount.0 >= req.actual_amount.0
    &&& now < r.exchange.expiration
    &&& !r.redeemed
}

/// Some stored quote can be redeemed by `req` at time `now`.
pub open spec fn has_live_match(s: Seq<StoredExchange>, req: GetExchange, now: Timestamp) -> bool {
    exists|i: int| 0 <= i < s.len() && live_match(s[i], req, now)
}

/// `s` with the quote `id` marked redeemed.
pub open spec fn consumed(s: Seq<StoredExchange>, id: ExchangeId) -> Seq<StoredExchange> {
    Seq::new(
        s.len(),
        |i: int|
            if s[i].exchange.id == id {
                StoredExchange { exchange: s[i].exchange, redeemed: true }
            } else {
                s[i]
            },
    )
}

/// `x` with its expiration set to `expiration`.
pub open spec fn expiring_at(x: Exchange, expiration: Timestamp) -> Exchange {
    Exchange {
        id: x.id,
        from_: x.from_,
        to_: x.to_,
        amount: x.amount,
        expiration,
        rate: x.rate,
        user_id: x.user_id,
        created_at: x.created_at,
        updated_at: x.updated_at,
    }
}

/// `s` with the quote `id` expiring at `expiration`.
pub open spec fn with_expiration(s: Seq<StoredExchange>, id: ExchangeId, expiration: Timestamp) -> Seq<
    StoredExchange,
> {
    Seq::new(
        s.len(),
        |i: int|
            if s[i].exchange.id == id {
                StoredExchange {
                    exchange: expiring_at(s[i].exchange, expiration),
                    redeemed: s[i].redeemed,
                }
            } else {
                s[i]
            },
    )
}

/// The store of issued quotes.
pub struct ExchangesRepoImpl {
    records: Vec<StoredExchange>,
}

impl View for ExchangesRepoImpl {
    type V = Seq<StoredExchange>;

    closed spec fn view(&self) -> Seq<StoredExchange> {
        self.records@
    }
}

impl ExchangesRepoImpl {
    pub open spec fn wf(&self) -> bool {
        ids_unique(self@)
    }

    /// An empty store.
    pub fn new() -> (r: Self)
        ensures
            r.wf(),
            r@ == Seq::<StoredExchange>::empty(),
    {
        ExchangesRepoImpl { records: Vec::new() }
    }

    /// Number of stored quotes.
    pub fn len(&self) -> (r: usize)
        ensures
            r == self@.len(),
    {
        self.records.len()
    }

    /// Index of the quote with identifier `id`.
    fn position_of(&self, id: ExchangeId) -> (r: Option<usize>)
        ensures
            r is None <==> !has_id(self@, id),
            r matches Some(i) ==> i < self@.len() && self@[i as int].exchange.id == id,
    {
        let mut i: usize = 0;
        while i < self.records.len()
            invariant
                i <= self.records@.len(),
                forall|k: int| 0 <= k < i ==> self.records@[k].exchange.id != id,
            decreases self.records@.len() - i,
        {
            if self.records[i].exchange.id.0 == id.0 {
                return Some(i);
            }
            i = i + 1;
        }
        None
    }

    /// Stores the quote `payload`, created at `now`. Fails when its identifier
    /// is already taken.
    pub fn create(&mut self, payload: NewExchange, now: Timestamp) -> (r: Result<
        Exchange,
        ExchangeError,
    >)
        requires
            old(self).wf(),
        ensures
            final(self).wf(),
            r is Ok <==> !has_id(old(self)@, payload.id),
            r is Ok ==> r == Ok::<Exchange, ExchangeError>(stored_exchange(payload, now))
                && final(self)@ == old(self)@.push(
                StoredExchange { exchange: stored_exchange(payload, now), redeemed: false },
            ),
            r is Err ==> r == Err::<Exchange, ExchangeError>(
                ExchangeError::StorageConflict(payload.id),
            ) && final(self)@ == old(self)@,
    {
        match self.position_of(payload.id) {
            Some(_) => Err(ExchangeError::StorageConflict(payload.id)),
            None => {
                let exchange = Exchange::from_new(payload, now);
                self.records.push(StoredExchange { exchange, redeemed: false });
                Ok(exchange)
            },
        }
    }

    /// The quote that `req` can redeem at time `now`, if any.
    pub fn get(&self, req: GetExchange, now: Timestamp) -> (r: Option<Exchange>)
        requires
            self.wf(),
        ensures
            r is Some <==> has_live_match(self@, req, now),
            forall|i: int|
                0 <= i < self@.len() && live_match(self@[i], req, now) ==> r == Some(
                    self@[i].exchange,
                ),
    {
        match self.position_of(req.id) {
            None => None,
            Some(i) => {
                let r = self.records[i];
                if r.exchange.from_ == req.from && r.exchange.to_ == req.to
                    && r.exchange.amount.0 >= req.actual_amount.0 && now < r.exchange.expiration
                    && !r.redeemed {
                    Some(r.exchange)
                } else {
                    None
                }
            },
        }
    }

    /// The quote with identifier `id`, whatever its state.
    pub fn get_by_id(&self, id: ExchangeId) -> (r: Option<Exchange>)
        requires
            self.wf(),
        ensures
            r is Some <==> has_id(self@, id),
            forall|i: int|
                0 <= i < self@.len() && self@[i].exchange.id == id ==> r == Some(
                    self@[i].exchange,
                ),
    {
        match self.position_of(id) {
            None => None,
            Some(i) => Some(self.records[i].exchange),
        }
    }

    /// Moves the expiration of quote `id` to `expiration`, which may not be
    /// earlier than the current one.
    pub fn update_expiration(&mut self, id: ExchangeId, expiration: Timestamp) -> (r: Result<
        Exchange,
        ExchangeError,
    >)
        requires
            old(self).wf(),
        ensures
            final(self).wf(),
            !has_id(old(self)@, id) ==> r == Err::<Exchange, ExchangeError>(
                ExchangeError::NotFound(id),
            ) && final(self)@ == old(self)@,
            forall|i: int|
                0 <= i < old(self)@.len() && old(self)@[i].exchange.id == id ==> if expiration
                    < old(self)@[i].exchange.expiration {
                    r == Err::<Exchange, ExchangeError>(ExchangeError::InvalidExpiration)
                        && final(self)@ == old(self)@
                } else {
                    r == Ok::<Exchange, ExchangeError>(
                        expiring_at(old(self)@[i].exchange, expiration),
                    ) && final(self)@ == with_expiration(old(self)@, id, expiration)
                },
    {
        match self.position_of(id) {
            None => Err(ExchangeError::NotFound(id)),
            Some(i) => {
                let r = self.records[i];
                if expiration < r.exchange.expiration {
                    Err(ExchangeError::InvalidExpiration)
                } else {
                    let e = r.exchange;
                    let exchange = Exchange {
                        id: e.id,
                        from_: e.from_,
                        to_: e.to_,
                        amount: e.amount,
                        expiration,
                        rate: e.rate,
                        user_id: e.user_id,
                        created_at: e.created_at,
                        updated_at: e.updated_at,
                    };
                    self.records.set(i, StoredExchange { exchange, redeemed: r.redeemed });
                    assert(self@ =~= with_expiration(old(self)@, id, expiration));
                    Ok(exchange)
                }
            },
        }
    }

    /// Redeems the quote that `req` matches at time `now`: the match and the
    /// marking of the quote as redeemed happen in one step, so a quote is
    /// redeemed at most once.
    pub fn redeem(&mut self, req: GetExchange, now: Timestamp) -> (r: Result<
        SellOrder,
        ExchangeError,
    >)
        requires
            old(self).wf(),
        ensures
            final(self).wf(),
            r is Ok <==> has_live_match(old(self)@, req, now),
            r is Ok ==> r == Ok::<SellOrder, ExchangeError>(
                SellOrder { from: req.from, to: req.to, actual_amount: req.actual_amount },
            ) && final(self)@ == consumed(old(self)@, req.id),
            r is Err ==> r == Err::<SellOrder, ExchangeError>(ExchangeError::QuoteNotFound)
                && final(self)@ == old(self)@,
    {
        match self.position_of(req.id) {
            None => Err(ExchangeError::QuoteNotFound),
            Some(i) => {
                let r = self.records[i];
                if r.exchange.from_ == req.from && r.exchange.to_ == req.to
                    && r.exchange.amount.0 >= req.actual_amount.0 && now < r.exchange.expiration
                    && !r.redeemed {
                    self.records.set(i, StoredExchange { exchange: r.exchange, redeemed: true });
                    assert(self@ =~= consumed(old(self)@, req.id));
                    Ok(SellOrder { from: req.from, to: req.to, actual_amount: req.actual_amount })
                } else {
                    Err(ExchangeError::QuoteNotFound)
                }
            },
        }
    }
}

/// Once quote `req.id` has been redeemed, no request on that identifier can
/// redeem it again, whatever its currencies, amount or time.
pub proof fn lemma_redeemed_once(s: Seq<StoredExchange>, id: ExchangeId, req: GetExchange, now: Timestamp)
    requires
        req.id == id,
    ensures
        !has_live_match(consumed(s, id), req, now),
{
}

/// A quote whose expiration is not after `now` cannot be redeemed at `now`,
/// even when every other field matches.
pub proof fn lemma_expired_not_redeemable(s: Seq<StoredExchange>, req: GetExchange, now: Timestamp)
    requires
        forall|i: int| 0 <= i < s.len() && s[i].exchange.id == req.id ==> s[i].exchange.expiration <= now,
    ensures
        !has_live_match(s, req, now),
{
}

/// After the expiration of an unredeemed quote is moved to `expiration`, a
/// matching request at any time before `expiration` redeems it.
pub proof fn lemma_extension_reopens(
    s: Seq<StoredExchange>,
    i: int,
    req: GetExchange,
    expiration: Timestamp,
    now: Timestamp,
)
    requires
        0 <= i < s.len(),
        s[i].exchange.id == req.id,
        s[i].exchange.from_ == req.from,
        s[i].exchange.to_ == req.to,
        s[i].exchange.amount.0 >= req.actual_amount.0,
        !s[i].redeemed,
        now < expiration,
    ensures
        has_live_match(with_expiration(s, req.id, expiration), req, now),
{
    let t = with_expiration(s, req.id, expiration);
    assert(live_match(t[i], req, now));
}

} // verus!
