//! Negotiation core of a resource-matching provider.
//!
//! A provider announces an offer or a request, a peer answers with a
//! proposal, the announcer selects one proposal, the proposer confirms, and
//! the two open a data channel. This crate holds the state machine of that
//! negotiation and proves what it guarantees; it sends and receives nothing.
//!
//! - [`records`] and [`envelope`]: the messages and their payload document.
//! - [`document`]: JSON through `serde_json`, the only code that is trusted
//!   rather than proved.
//! - [`table`], [`ledger`], [`channel`], [`router`]: the keyed table, the
//!   proposal ledger, the channel manager and the subscription router.
//! - [`state`], [`preservation`], [`laws`]: the negotiation as a state
//!   machine, the invariant that every operation keeps, and what follows.
//! - [`engine`]: the executable engine, proved against the state machine.
//! - [`provider`]: the callbacks of the template provider, which turn a
//!   delivered message into the action to perform.

pub mod document;
pub mod envelope;
pub mod records;
pub mod table;
pub mod ledger;
pub mod channel;
pub mod state;
pub mod preservation;
pub mod laws;
pub mod engine;
pub mod router;
pub mod provider;
