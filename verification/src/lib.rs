//! The state-transition function of a single-pair collateralized lending
//! ledger.
//!
//! A transition takes a prior ledger state, the digest that is claimed to
//! commit to it, and one action (deposit, withdraw, borrow or repay). It
//! answers with the digest of the next state and the asset movement that the
//! action implies, or refuses. Nothing is kept between calls.
//!
//! - [`types`]: the data model and its mathematical views
//! - [`word`]: 256-bit words and their checked arithmetic
//! - [`digest`]: the commitment to a state
//! - [`ratio`]: the collateralization invariant
//! - [`ledger`]: position lookup, the four mutations, one step on a state
//! - [`engine`]: the whole transition, from request to response
//! - [`laws`]: what holds of every transition
pub mod digest;
pub mod engine;
pub mod laws;
pub mod ledger;
pub mod ratio;
pub mod types;
pub mod word;
