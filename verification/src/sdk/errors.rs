//! Errors of the client SDK.
use vstd::prelude::*;

verus! {

/// Why an SDK operation failed.
#[derive(Debug, Clone, PartialEq, Eq)]
pub enum StellarAidError {
    /// The wallet could not be reached or is not connected.
    WalletConnection(String),
    /// An argument was refused before anything was sent.
    ValidationError(String),
}

} // verus!
