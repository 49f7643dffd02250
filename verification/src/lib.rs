//! A self-adjusting continuous-price sale of a pre-funded supply of one
//! fungible asset against another.
//!
//! The unit price reacts to how fast units are sold relative to a target
//! sell-through schedule. [`market`] holds the pricing engine, [`contract`]
//! the lifecycle that gates scheduling, purchases and withdrawal of proceeds.

pub mod contract;
pub mod contract_lemmas;
pub mod decimal;
pub mod epoch;
pub mod error;
pub mod fungible;
pub mod host;
pub mod market;
pub mod market_lemmas;
pub mod msg;
pub mod state;
