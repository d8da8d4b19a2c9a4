//! Verified core of a payment platform: the state machine of a payment
//! scheduler (one-time and recurring payments that a keeper executes once
//! they are due) and the rules of the currency service.

pub mod address;
pub mod scheduler;
pub mod properties;
pub mod currency;

pub use address::Address;
