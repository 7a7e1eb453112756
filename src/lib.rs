//! Decentralised governance for a fixed organisation: a membership registry,
//! a voting-power ledger and a proposal lifecycle engine, each operation
//! verified against its contract. The host supplies time, randomness and
//! caller authentication as plain values.
pub mod address;
pub mod error;
pub mod types;
pub mod token;
pub mod state;
pub mod member;
pub mod proposal;
mod dao_token;
pub mod contract;
pub mod lemmas;
