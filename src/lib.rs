//! Time-bounded exchange quotes: issuing them against per-currency limits,
//! looking them up, extending them, and redeeming each at most once.

pub mod currency;
pub mod error;
pub mod exchange;
pub mod limits;
pub mod repo;
pub mod service;
