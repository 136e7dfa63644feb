//! What a contract asks of the ledger host.
//!
//! The contracts of this crate decide; the host performs. Each contract
//! operation returns the list of [`Effect`]s it needs, in the order in which
//! the host must perform them: an authorization check, a token transfer, a
//! TTL extension, an event, or a call into another contract.
use vstd::prelude::*;

verus! {

/// A ledger account or contract, by its strkey text (`G...` / `C...`).
pub type Address = String;

/// A cross-contract call that a contract asks the host to make.
#[derive(Debug, PartialEq, Eq)]
pub enum Call {
    /// `open_dispute(commission_id, initiator)` on an escrow contract.
    EscrowOpenDispute { escrow: Address, commission_id: String, initiator: Address },
    /// `refund_client(commission_id, config)` on an escrow contract.
    EscrowRefundClient { escrow: Address, commission_id: String, config: Address },
    /// `release_payment(commission_id, config)` on an escrow contract.
    EscrowReleasePayment { escrow: Address, commission_id: String, config: Address },
}

/// An event that a contract publishes.
#[derive(Debug, PartialEq, Eq)]
pub enum Event {
    /// `escrow` / `created`
    EscrowCreated { commission_id: String, amount: i128 },
    /// `escrow` / `released`
    EscrowReleased { commission_id: String, payout: i128, fee: i128 },
    /// `escrow` / `refunded`
    EscrowRefunded { commission_id: String, client: Address, amount: i128 },
    /// `escrow` / `expired`
    EscrowExpired { commission_id: String, expiry_ledger: u32 },
    /// `escrow` / `disputed`
    EscrowDisputed { commission_id: String, initiator: Address },
    /// `agr_created`
    AgreementCreated { commission_id: String, client: Address, artist: Address, budget_usdc: i128 },
    /// `agr_accepted`
    AgreementAccepted { commission_id: String },
    /// `agr_rejected`
    AgreementRejected { commission_id: String, reason: String },
    /// `ms_proposed`
    MilestoneProposed { commission_id: String, milestone_id: String, amount_usdc: i128 },
    /// `ms_approved`
    MilestoneApproved { commission_id: String, milestone_id: String },
    /// `dispute` / `opened`
    DisputeOpened { commission_id: String, initiator: Address },
    /// `dispute` / `client`
    DisputeResolvedForClient { commission_id: String },
    /// `dispute` / `artist`
    DisputeResolvedForArtist { commission_id: String },
    /// `dispute` / `partial`
    DisputePartiallyResolved { commission_id: String, client_share_bps: u32 },
    /// `dispute` / `auto`
    DisputeAutoResolved { commission_id: String },
    /// `config_initialized`
    ConfigInitialized { admin: Address, usdc_token: Address, fee_bps: u32 },
    /// `fee_bps_updated`
    FeeBpsUpdated { old_fee_bps: u32, new_fee_bps: u32 },
    /// `admin_transfer_initiated`
    AdminTransferInitiated { current_admin: Address, pending_admin: Address },
    /// `admin_transfer_completed`
    AdminTransferCompleted { old_admin: Address, new_admin: Address },
}

/// One thing the host must do on behalf of a contract operation.
#[derive(Debug, PartialEq, Eq)]
pub enum Effect {
    /// `who.require_auth()`: the operation is void unless `who` authorized it.
    RequireAuth { who: Address },
    /// Extend the time-to-live of the persistent entry stored under `key`.
    ExtendTtl { key: String, ledgers: u32 },
    /// Move `amount` of `token` from `from` into the contract's own account.
    TransferToContract { token: Address, from: Address, amount: i128 },
    /// Move `amount` of `token` from the contract's own account to `to`.
    TransferFromContract { token: Address, to: Address, amount: i128 },
    /// Publish an event.
    Emit { event: Event },
    /// Call another contract.
    Invoke { call: Call },
}

/// Whether `r` is a refusal with reason `e` that still demands `demanded`:
/// the authorizations the operation asks for before it checks anything, so
/// that an unauthorized caller is turned away whatever the other arguments.
pub open spec fn refused<T, E>(r: Result<T, (Vec<Effect>, E)>, demanded: Seq<Effect>, e: E) -> bool {
    r matches Err((fx, err)) && fx@ == demanded && err == e
}

/// The demand that `who` authorize the operation.
pub fn demand_auth(who: &Address) -> (v: Vec<Effect>)
    ensures
        v@ == seq![Effect::RequireAuth { who: *who }],
{
    let mut v: Vec<Effect> = Vec::new();
    v.push(Effect::RequireAuth { who: who.clone() });
    v
}

} // verus!
