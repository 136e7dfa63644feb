//! The client SDK: network settings, the wallet connection, and the
//! transaction simulator.
pub mod errors;
pub mod config;
pub mod wallet;
pub mod transaction_simulator;
