//! Settlement core of a fixed-price token sale.
//!
//! The library custodies a pool of fungible tokens owned by an administrator,
//! sells them to buyers at a fixed exchange rate against the ledger's native
//! currency, and tracks aggregate sale state. The three state-transition
//! operations (fund, top up, purchase) are modelled as verified transitions
//! over plain account balances; the host ledger's transfer services and
//! account plumbing live outside the library.

pub mod config;
pub mod derivation;
pub mod errors;
pub mod guard;
pub mod record;
pub mod sale;
