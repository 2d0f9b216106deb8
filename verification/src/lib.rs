//! Atomically routes a swap between multiple pools.
//!
//! A route is a chain of hops. `begin` opens a continuation, each hop is run
//! through the step processor, which checks the hop against the continuation
//! and advances it by the balance change it observes, and `end` closes the
//! chain once the agreed minimum has arrived.
//!
//! The exchange itself is the work of a venue, which the step processor
//! reaches through [`processor::Processor`]. Nothing is assumed of a venue:
//! what is proved of a chain in [`chain`] holds whatever the venues do.

pub mod accounts;
pub mod action;
pub mod action_type;
pub mod address;
pub mod chain;
pub mod codec;
pub mod continuation;
pub mod error;
pub mod event;
pub mod hop_accounts;
pub mod instruction;
pub mod processor;
pub mod pubkey;
pub mod router;
pub mod token_account;
pub mod token_amount;
