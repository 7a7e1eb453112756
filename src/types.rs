//! Data shared by the registry, the ledger and the proposal engine.
pub mod dao;
pub mod data_key;
pub mod proposal;
