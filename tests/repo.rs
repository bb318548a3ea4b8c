use exchange_quotes::currency::{Amount, Currency};
use exchange_quotes::error::ExchangeError;
use exchange_quotes::exchange::{ExchangeId, GetExchange, NewExchange, Rate, UserId};
use exchange_quotes::repo::ExchangesRepoImpl;

fn default_new_exchange(id: u128, expiration: i64) -> NewExchange {
    NewExchange {
        id: ExchangeId(id),
        from_: Currency::Eth,
        to_: Currency::Btc,
        amount: Amount(0),
        expiration,
        rate: Rate { scaled: 343_430_000_000_000_000 },
        user_id: UserId(1),
    }
}

fn default_get_exchange(id: u128) -> GetExchange {
    GetExchange { id: ExchangeId(id), from: Currency::Eth, to: Currency::Btc, actual_amount: Amount(0) }
}

#[test]
fn exchanges_create() {
    let mut repo = ExchangesRepoImpl::new();
    let res = repo.create(default_new_exchange(1, 1_000), 1_000);
    assert!(res.is_ok());
}

#[test]
fn exchanges_read() {
    let mut repo = ExchangesRepoImpl::new();
    let _ = repo.create(default_new_exchange(1, 1_000), 1_000).unwrap();
    let res = repo.get(default_get_exchange(2), 1_000);
    assert!(res.is_none());
}

#[test]
fn exchanges_get_by_id() {
    let mut repo = ExchangesRepoImpl::new();
    let exchange = repo.create(default_new_exchange(1, 1_000), 1_000).expect("failed to create rate");
    repo.get_by_id(exchange.id).expect("get_by_id returned None value");
}

#[test]
fn exchanges_update_expiration() {
    let mut repo = ExchangesRepoImpl::new();
    let first_datetime: i64 = 0;
    let second_datetime: i64 = 100;
    let exchange = repo.create(default_new_exchange(1, first_datetime), 0).expect("failed to create rate");
    let exchange = repo.update_expiration(exchange.id, second_datetime).expect("failed to refresh rate");
    assert_eq!(second_datetime, exchange.expiration);
}

#[test]
fn create_keeps_fields_and_stamps_time() {
    let mut repo = ExchangesRepoImpl::new();
    let e = repo.create(default_new_exchange(5, 2_000), 1_500).unwrap();
    assert_eq!(e.id, ExchangeId(5));
    assert_eq!(e.expiration, 2_000);
    assert_eq!(e.created_at, 1_500);
    assert_eq!(e.updated_at, 1_500);
    assert_eq!(repo.len(), 1);
}

#[test]
fn create_rejects_taken_id() {
    let mut repo = ExchangesRepoImpl::new();
    repo.create(default_new_exchange(1, 1_000), 0).unwrap();
    let res = repo.create(default_new_exchange(1, 2_000), 0);
    assert_eq!(res, Err(ExchangeError::StorageConflict(ExchangeId(1))));
    assert_eq!(repo.len(), 1);
}

#[test]
fn get_matches_exactly() {
    let mut repo = ExchangesRepoImpl::new();
    let mut n = default_new_exchange(1, 1_000);
    n.amount = Amount(50);
    repo.create(n, 0).unwrap();
    let mut req = default_get_exchange(1);
    req.actual_amount = Amount(50);
    assert!(repo.get(req, 999).is_some());
    req.actual_amount = Amount(51);
    assert!(repo.get(req, 999).is_none());
    req.actual_amount = Amount(20);
    assert!(repo.get(req, 1_000).is_none());
    req.from = Currency::Stq;
    assert!(repo.get(req, 10).is_none());
}

#[test]
fn get_by_id_missing() {
    let repo = ExchangesRepoImpl::new();
    assert!(repo.get_by_id(ExchangeId(3)).is_none());
}

#[test]
fn update_expiration_errors() {
    let mut repo = ExchangesRepoImpl::new();
    repo.create(default_new_exchange(1, 500), 0).unwrap();
    assert_eq!(repo.update_expiration(ExchangeId(2), 600), Err(ExchangeError::NotFound(ExchangeId(2))));
    assert_eq!(repo.update_expiration(ExchangeId(1), 499), Err(ExchangeError::InvalidExpiration));
    assert_eq!(repo.get_by_id(ExchangeId(1)).unwrap().expiration, 500);
    assert_eq!(repo.update_expiration(ExchangeId(1), 500).unwrap().expiration, 500);
}

#[test]
fn redeem_marks_quote_used() {
    let mut repo = ExchangesRepoImpl::new();
    let mut n = default_new_exchange(1, 1_000);
    n.amount = Amount(10);
    repo.create(n, 0).unwrap();
    let mut req = default_get_exchange(1);
    req.actual_amount = Amount(4);
    let order = repo.redeem(req, 10).unwrap();
    assert_eq!(order.actual_amount, Amount(4));
    assert!(repo.get(req, 10).is_none());
    assert!(repo.get_by_id(ExchangeId(1)).is_some());
    assert_eq!(repo.redeem(req, 10), Err(ExchangeError::QuoteNotFound));
}
