use vstd::prelude::*;

use crate::error::ExchangeError;
use crate::exchange::{
    stored_exchange, CreateSellOrder, Exchange, ExchangeId, GetExchange, GetRate, NewExchange, Rate,
    SellOrder, Timestamp, UserId,
};
use crate::limits::{limit_of, validate, within_limit, CurrenciesLimits, ValidationFailure};
use crate::repo::{consumed, has_id, has_live_match, ExchangesRepoImpl, StoredExchange};

verus! {

#[verifier::external_type_specification]
#[verifier::external_body]
pub struct ExSystemTime(std::time::SystemTime);

/// Relies on std's `SystemTime::now`: a reading of the system clock. Nothing
/// is known of the value.
pub assume_specification[ std::time::SystemTime::now ]() -> std::time::SystemTime;

/// Relies on std's `SystemTime::duration_since` with the Unix epoch: the whole
/// seconds since the epoch, `None` when `t` lies before it.
#[verifier::external_body]
fn seconds_since_epoch(t: &std::time::SystemTime) -> (r: Option<u64>) {
    match t.duration_since(std::time::UNIX_EPOCH) {
        Ok(d) => Some(d.as_secs()),
        Err(_) => None,
    }
}

/// The latest clock reading that is used: it leaves room for any time to live
/// of `u32` seconds within a `Timestamp`.
pub const LATEST_CLOCK_READING: i64 = 9_223_372_032_559_808_512;

/// The current time in seconds since the Unix epoch; `None` when the clock
/// reads before the epoch or after `LATEST_CLOCK_READING`.
fn current_time() -> (r: Option<Timestamp>)
    ensures
        r matches Some(t) ==> 0 <= t <= LATEST_CLOCK_READING,
{
    let t = std::time::SystemTime::now();
    match seconds_since_epoch(&t) {
        None => None,
        Some(secs) => {
            if secs <= LATEST_CLOCK_READING as u64 {
                Some(secs as i64)
            } else {
                None
            }
        },
    }
}

/// The quote with identifier `id` issued for `req` at `now`, valid for
/// `ttl_secs` seconds.
pub open spec fn issued_quote(
    id: ExchangeId,
    req: GetRate,
    user_id: UserId,
    rate: Rate,
    now: Timestamp,
    ttl_secs: u32,
) -> NewExchange {
    NewExchange {
        id,
        from_: req.from,
        to_: req.to,
        amount: req.amount,
        expiration: (now + ttl_secs) as i64,
        rate,
        user_id,
    }
}

/// The result of issuing a quote on store contents `s`, and the contents after.
/// The amount is checked first, then the rate, then the expiration, then the
/// identifier.
pub open spec fn quote_outcome(
    s: Seq<StoredExchange>,
    limits: CurrenciesLimits,
    id: ExchangeId,
    req: GetRate,
    user_id: UserId,
    rate: Option<Rate>,
    now: Timestamp,
    ttl_secs: u32,
) -> (Result<Exchange, ExchangeError>, Seq<StoredExchange>) {
    let limit = limit_of(req.from, limits);
    if !within_limit(req.amount, limit) {
        (
            Err(
                ExchangeError::Validation(
                    ValidationFailure { currency: req.from, min: limit.min, max: limit.max },
                ),
            ),
            s,
        )
    } else if rate is None {
        (Err(ExchangeError::RateUnavailable), s)
    } else if now + ttl_secs > i64::MAX {
        (Err(ExchangeError::InvalidExpiration), s)
    } else if has_id(s, id) {
        (Err(ExchangeError::StorageConflict(id)), s)
    } else {
        let q = stored_exchange(issued_quote(id, req, user_id, rate->0, now, ttl_secs), now);
        (Ok(q), s.push(StoredExchange { exchange: q, redeemed: false }))
    }
}

/// The lookup that redeeming `order` performs.
pub open spec fn lookup_of(order: CreateSellOrder) -> GetExchange {
    GetExchange {
        id: order.id,
        from: order.from,
        to: order.to,
        actual_amount: order.actual_amount,
    }
}

/// Issues and stores the quote `id` for `req` at time `now`, valid for
/// `ttl_secs` seconds. The amount is checked against `limits` first; `rate` is
/// what the rate source answered, `None` when it could not.
pub fn quote(
    repo: &mut ExchangesRepoImpl,
    limits: CurrenciesLimits,
    id: ExchangeId,
    req: GetRate,
    user_id: UserId,
    rate: Option<Rate>,
    now: Timestamp,
    ttl_secs: u32,
) -> (r: Result<Exchange, ExchangeError>)
    requires
        old(repo).wf(),
    ensures
        final(repo).wf(),
        (r, final(repo)@) == quote_outcome(old(repo)@, limits, id, req, user_id, rate, now, ttl_secs),
{
    match validate(req.from, req.amount, limits) {
        Err(failure) => {
            return Err(ExchangeError::Validation(failure));
        },
        Ok(()) => {},
    }
    let rate = match rate {
        None => {
            return Err(ExchangeError::RateUnavailable);
        },
        Some(rate) => rate,
    };
    let expiration = match now.checked_add(ttl_secs as i64) {
        None => {
            return Err(ExchangeError::InvalidExpiration);
        },
        Some(e) => e,
    };
    let payload = NewExchange::new(id, req, expiration, rate, user_id);
    repo.create(payload, now)
}

/// Redeems the quote that `order` names at time `now`, producing a sell order
/// for the requested amount and marking the quote redeemed.
pub fn redeem(repo: &mut ExchangesRepoImpl, order: CreateSellOrder, now: Timestamp) -> (r: Result<
    SellOrder,
    ExchangeError,
>)
    requires
        old(repo).wf(),
    ensures
        final(repo).wf(),
        r is Ok <==> has_live_match(old(repo)@, lookup_of(order), now),
        r is Ok ==> r == Ok::<SellOrder, ExchangeError>(
            SellOrder { from: order.from, to: order.to, actual_amount: order.actual_amount },
        ) && final(repo)@ == consumed(old(repo)@, order.id),
        r is Err ==> r == Err::<SellOrder, ExchangeError>(ExchangeError::QuoteNotFound)
            && final(repo)@ == old(repo)@,
{
    let req = GetExchange::from(order);
    repo.redeem(req, now)
}

/// Issues a quote as `quote` does, at the current time. Fails with
/// `ClockUnavailable`, leaving the store as it was, when the clock gives no
/// usable reading.
pub fn quote_now(
    repo: &mut ExchangesRepoImpl,
    limits: CurrenciesLimits,
    id: ExchangeId,
    req: GetRate,
    user_id: UserId,
    rate: Option<Rate>,
    ttl_secs: u32,
) -> (r: Result<Exchange, ExchangeError>)
    requires
        old(repo).wf(),
    ensures
        final(repo).wf(),
        r == Err::<Exchange, ExchangeError>(ExchangeError::ClockUnavailable) ==> final(repo)@
            == old(repo)@,
        r != Err::<Exchange, ExchangeError>(ExchangeError::ClockUnavailable) ==> exists|
            now: Timestamp,
        |
            0 <= now <= LATEST_CLOCK_READING && (r, final(repo)@) == #[trigger] quote_outcome(
                old(repo)@,
                limits,
                id,
                req,
                user_id,
                rate,
                now,
                ttl_secs,
            ),
        !within_limit(req.amount, limit_of(req.from, limits)) ==> r == Err::<
            Exchange,
            ExchangeError,
        >(
            ExchangeError::Validation(
                ValidationFailure {
                    currency: req.from,
                    min: limit_of(req.from, limits).min,
                    max: limit_of(req.from, limits).max,
                },
            ),
        ) || r == Err::<Exchange, ExchangeError>(ExchangeError::ClockUnavailable),
        within_limit(req.amount, limit_of(req.from, limits)) && rate is None ==> r == Err::<
            Exchange,
            ExchangeError,
        >(ExchangeError::RateUnavailable) || r == Err::<Exchange, ExchangeError>(
            ExchangeError::ClockUnavailable,
        ),
        within_limit(req.amount, limit_of(req.from, limits)) && rate is Some && has_id(
            old(repo)@,
            id,
        ) ==> r == Err::<Exchange, ExchangeError>(ExchangeError::StorageConflict(id)) || r
            == Err::<Exchange, ExchangeError>(ExchangeError::ClockUnavailable),
        within_limit(req.amount, limit_of(req.from, limits)) && rate is Some && !has_id(
            old(repo)@,
            id,
        ) ==> r is Ok || r == Err::<Exchange, ExchangeError>(ExchangeError::ClockUnavailable),
{
    match current_time() {
        None => Err(ExchangeError::ClockUnavailable),
        Some(now) => quote(repo, limits, id, req, user_id, rate, now, ttl_secs),
    }
}

/// Redeems as `redeem` does, at the current time. Fails with
/// `ClockUnavailable`, leaving the store as it was, when the clock gives no
/// usable reading.
pub fn redeem_now(repo: &mut ExchangesRepoImpl, order: CreateSellOrder) -> (r: Result<
    SellOrder,
    ExchangeError,
>)
    requires
        old(repo).wf(),
    ensures
        final(repo).wf(),
        r is Ok ==> r == Ok::<SellOrder, ExchangeError>(
            SellOrder { from: order.from, to: order.to, actual_amount: order.actual_amount },
        ) && final(repo)@ == consumed(old(repo)@, order.id) && exists|now: Timestamp|
            0 <= now <= LATEST_CLOCK_READING && #[trigger] has_live_match(
                old(repo)@,
                lookup_of(order),
                now,
            ),
        r == Err::<SellOrder, ExchangeError>(ExchangeError::QuoteNotFound) ==> exists|
            now: Timestamp,
        | 0 <= now <= LATEST_CLOCK_READING && !#[trigger] has_live_match(old(repo)@, lookup_of(order), now),
        r is Err ==> (r == Err::<SellOrder, ExchangeError>(ExchangeError::QuoteNotFound) || r
            == Err::<SellOrder, ExchangeError>(ExchangeError::ClockUnavailable)) && final(repo)@
            == old(repo)@,
{
    match current_time() {
        None => Err(ExchangeError::ClockUnavailable),
        Some(now) => redeem(repo, order, now),
    }
}

/// Moves the expiration of quote `id` forward to `expiration`.
pub fn extend(repo: &mut ExchangesRepoImpl, id: ExchangeId, expiration: Timestamp) -> (r: Result<
    Exchange,
    ExchangeError,
>)
    requires
        old(repo).wf(),
    ensures
        final(repo).wf(),
        !has_id(old(repo)@, id) ==> r == Err::<Exchange, ExchangeError>(ExchangeError::NotFound(id))
            && final(repo)@ == old(repo)@,
        forall|i: int|
            0 <= i < old(repo)@.len() && old(repo)@[i].exchange.id == id ==> if expiration
                < old(repo)@[i].exchange.expiration {
                r == Err::<Exchange, ExchangeError>(ExchangeError::InvalidExpiration)
                    && final(repo)@ == old(repo)@
            } else {
                r == Ok::<Exchange, ExchangeError>(
                    crate::repo::expiring_at(old(repo)@[i].exchange, expiration),
                ) && final(repo)@ == crate::repo::with_expiration(old(repo)@, id, expiration)
            },
{
    repo.update_expiration(id, expiration)
}

} // verus!
