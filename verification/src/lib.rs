//! Acquisition of USD buy/sell exchange rates published by several banks.
//!
//! The crate holds the decisions of the rate-acquisition subsystem: how a
//! payload becomes a rate, which request a source strategy makes next, which
//! rates of a cycle are persisted and how the latest-value table changes.
//! The network, the clock and the database stay with the caller, who performs
//! the actions this crate asks for and hands back what happened.

pub mod capture;
pub mod cycle;
pub mod decimal;
pub mod extract;
pub mod fetchers;
pub mod rate;
pub mod reply;
pub mod request;
pub mod scheduler;
pub mod source;
pub mod store;
pub mod strategy;
pub mod writer;

pub use crate::store::BankRate;
