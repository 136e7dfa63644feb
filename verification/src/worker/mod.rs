//! The background worker's decisions: donation verification outcomes and
//! webhook routing, deduplication and signatures.
pub mod donation_verifier;
pub mod webhooks;
