//! What a donation becomes once its transaction has been looked up on the
//! ledger.
use vstd::prelude::*;

verus! {

/// Where a donation stands.
#[derive(Clone, Copy, Debug, PartialEq, Eq, Structural)]
pub enum DonationStatus {
    Submitted,
    Confirming,
    Confirmed,
    Failed,
}

/// What the ledger said of a donation's transaction.
#[derive(Clone, Copy, Debug, PartialEq, Eq, Structural)]
pub enum DonationEvent {
    Confirm,
    Fail,
}

/// The donation state machine: a confirming donation is confirmed or fails;
/// no other status moves on a ledger event.
pub open spec fn transition_of(s: DonationStatus, e: DonationEvent) -> Option<DonationStatus> {
    match (s, e) {
        (DonationStatus::Confirming, DonationEvent::Confirm) => Some(DonationStatus::Confirmed),
        (DonationStatus::Confirming, DonationEvent::Fail) => Some(DonationStatus::Failed),
        _ => None,
    }
}

impl DonationStatus {
    /// The status after `event`, if the event applies.
    pub fn transition(self, event: DonationEvent) -> (r: Option<DonationStatus>)
        ensures
            r == transition_of(self, event),
    {
        match (self, event) {
            (DonationStatus::Confirming, DonationEvent::Confirm) => Some(DonationStatus::Confirmed),
            (DonationStatus::Confirming, DonationEvent::Fail) => Some(DonationStatus::Failed),
            _ => None,
        }
    }
}

/// The status a donation in `current` moves to when its transaction is
/// found to have `successful`ly applied or not: a submitted donation goes
/// through confirmation, a confirming one is settled, any other is left
/// alone.
pub open spec fn verified_status_of(current: DonationStatus, successful: bool) -> DonationStatus {
    let event = if successful {
        DonationEvent::Confirm
    } else {
        DonationEvent::Fail
    };
    match current {
        DonationStatus::Submitted | DonationStatus::Confirming => match transition_of(
            DonationStatus::Confirming,
            event,
        ) {
            Some(s) => s,
            None => DonationStatus::Failed,
        },
        other => other,
    }
}

/// The outcome of checking a donation against the ledger.
#[derive(Debug)]
pub struct VerificationResult {
    pub status: DonationStatus,
    pub ledger: Option<u64>,
    pub created_at: Option<String>,
}

/// The status after verification (see [`verified_status_of`]).
pub fn verified_status(current: DonationStatus, successful: bool) -> (s: DonationStatus)
    ensures
        s == verified_status_of(current, successful),
{
    let event = if successful {
        DonationEvent::Confirm
    } else {
        DonationEvent::Fail
    };
    match current {
        DonationStatus::Submitted | DonationStatus::Confirming => match DonationStatus::Confirming.transition(
            event,
        ) {
            Some(s) => s,
            None => DonationStatus::Failed,
        },
        other => other,
    }
}

/// The verification outcome of a donation in `current` whose transaction
/// was found in `ledger`, created at `created_at`.
pub fn verification_result(
    current: DonationStatus,
    successful: bool,
    ledger: Option<u64>,
    created_at: String,
) -> (r: VerificationResult)
    ensures
        r.status == verified_status_of(current, successful),
        r.ledger == ledger,
        r.created_at == Some(created_at),
{
    VerificationResult {
        status: verified_status(current, successful),
        ledger,
        created_at: Some(created_at),
    }
}

/// A successful transaction confirms a pending donation, a failed one fails
/// it, and settled donations never change.
pub proof fn lemma_verification_settles(current: DonationStatus, successful: bool)
    ensures
        (current == DonationStatus::Submitted || current == DonationStatus::Confirming)
            ==> verified_status_of(current, successful) == if successful {
            DonationStatus::Confirmed
        } else {
            DonationStatus::Failed
        },
        (current == DonationStatus::Confirmed || current == DonationStatus::Failed)
            ==> verified_status_of(current, successful) == current,
{
}

} // verus!
