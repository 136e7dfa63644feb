//! StellarAid: the verified core of the StellarAid Soroban contracts, SDK and
//! worker.
pub mod host;
pub mod escrow;
pub mod agreement;
pub mod arbiter;
pub mod platform_config;
pub mod registry;
pub mod governance;
pub mod emergency_pause;
pub mod tip_payment;
pub mod config_upgrade;
pub mod licensing;
pub mod grants;
pub mod bridge;
pub mod sdk;
pub mod codec;
pub mod worker;
