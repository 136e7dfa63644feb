use stellar_aid::agreement::{
    get_suggestion, AgreementError, AgreementStatus, CommissionAgreementContract, MilestoneStatus,
};
use stellar_aid::codec::bytes_key;
use stellar_aid::host::{Effect, Event};

const CLIENT: &str = "GCLIENTADDRESS";
const ARTIST: &str = "GARTISTADDRESS";

fn create(
    c: &mut CommissionAgreementContract,
    id: &str,
    title: &str,
    budget: i128,
    deadline: u32,
    ledger: u32,
) -> Result<Vec<Effect>, (Vec<Effect>, AgreementError)> {
    c.create_agreement(
        id.to_string(),
        CLIENT.to_string(),
        ARTIST.to_string(),
        title.to_string(),
        budget,
        deadline,
        ledger,
    )
}

#[test]
fn test_create_agreement() {
    let mut c = CommissionAgreementContract::new();
    let commission_id = bytes_key(&[1, 2, 3]);
    let result = create(&mut c, &commission_id, "Logo Design", 1000, 100, 50);
    assert!(result.is_ok());
    let stored = c.get_agreement(&commission_id).unwrap();
    assert_eq!(stored.client, CLIENT);
    assert_eq!(stored.artist, ARTIST);
    assert_eq!(stored.title, "Logo Design");
    assert_eq!(stored.budget_usdc, 1000);
    assert_eq!(stored.deadline_ledger, 100);
    assert_eq!(stored.status, AgreementStatus::Pending);
    assert_eq!(stored.created_ledger, 50);
}

#[test]
fn test_create_agreement_already_exists() {
    let mut c = CommissionAgreementContract::new();
    let commission_id = bytes_key(&[1, 2, 3]);
    let _ = create(&mut c, &commission_id, "Logo Design", 1000, 100, 50);
    let result = create(&mut c, &commission_id, "Logo Design", 1000, 100, 50);
    assert!(result.is_err());
    assert_eq!(result.unwrap_err().1, AgreementError::AlreadyExists);
}

#[test]
fn test_create_agreement_invalid_amount() {
    let mut c = CommissionAgreementContract::new();
    let commission_id = bytes_key(&[1, 2, 3]);
    let result = create(&mut c, &commission_id, "Logo Design", -100, 100, 50);
    assert!(result.is_err());
    assert_eq!(result.unwrap_err().1, AgreementError::InvalidAmount);
}

#[test]
fn test_create_agreement_deadline_in_past() {
    let mut c = CommissionAgreementContract::new();
    let commission_id = bytes_key(&[1, 2, 3]);
    let result = create(&mut c, &commission_id, "Logo Design", 1000, 50, 100);
    assert!(result.is_err());
    assert_eq!(result.unwrap_err().1, AgreementError::DeadlineInPast);
}

#[test]
fn test_accept_agreement() {
    let mut c = CommissionAgreementContract::new();
    let commission_id = bytes_key(&[1, 2, 3]);
    create(&mut c, &commission_id, "Logo Design", 1000, 100, 50).unwrap();
    let result = c.accept_agreement(&commission_id);
    assert!(result.is_ok());
    let stored = c.get_agreement(&commission_id).unwrap();
    assert_eq!(stored.status, AgreementStatus::Active);
}

#[test]
fn test_reject_agreement() {
    let mut c = CommissionAgreementContract::new();
    let commission_id = bytes_key(&[1, 2, 3]);
    create(&mut c, &commission_id, "Logo Design", 1000, 100, 50).unwrap();
    let result = c.reject_agreement(&commission_id, "Too low budget".to_string());
    assert!(result.is_ok());
    let stored = c.get_agreement(&commission_id).unwrap();
    assert_eq!(stored.status, AgreementStatus::Cancelled);
}

#[test]
fn test_propose_and_approve_milestone() {
    let mut c = CommissionAgreementContract::new();
    let commission_id = bytes_key(&[1, 2, 3]);
    let milestone_id = bytes_key(&[10]);
    create(&mut c, &commission_id, "Logo Design", 1000, 100, 50).unwrap();
    c.accept_agreement(&commission_id).unwrap();
    let result =
        c.propose_milestone(&commission_id, milestone_id.clone(), "Initial Sketch".to_string(), 500);
    assert!(result.is_ok());
    let milestones = c.get_milestones(&commission_id).unwrap();
    assert_eq!(milestones.len(), 1);
    assert_eq!(milestones[0].title, "Initial Sketch");
    assert_eq!(milestones[0].amount_usdc, 500);
    assert_eq!(milestones[0].status, MilestoneStatus::Pending);

    let result = c.approve_milestone(&commission_id, &milestone_id);
    assert!(result.is_ok());
    let milestones = c.get_milestones(&commission_id).unwrap();
    assert_eq!(milestones[0].status, MilestoneStatus::Approved);
    let agreement = c.get_agreement(&commission_id).unwrap();
    assert_eq!(agreement.status, AgreementStatus::Completed);
}

#[test]
fn test_propose_milestone_budget_exceeded() {
    let mut c = CommissionAgreementContract::new();
    let commission_id = bytes_key(&[1, 2, 3]);
    create(&mut c, &commission_id, "Logo Design", 1000, 100, 50).unwrap();
    c.accept_agreement(&commission_id).unwrap();
    let _ = c.propose_milestone(&commission_id, bytes_key(&[10]), "Initial Sketch".to_string(), 600);
    let result =
        c.propose_milestone(&commission_id, bytes_key(&[11]), "Initial Sketch".to_string(), 600);
    assert!(result.is_err());
    assert_eq!(result.unwrap_err().1, AgreementError::MilestoneBudgetExceeded);
}

#[test]
fn test_get_agreement_not_found() {
    let c = CommissionAgreementContract::new();
    let result = c.get_agreement(&bytes_key(&[1, 2, 3]));
    assert!(result.is_err());
    assert_eq!(result.unwrap_err(), AgreementError::NotFound);
}

#[test]
fn test_get_milestones_not_found() {
    let c = CommissionAgreementContract::new();
    let result = c.get_milestones(&bytes_key(&[1, 2, 3]));
    assert!(result.is_err());
    assert_eq!(result.unwrap_err(), AgreementError::NotFound);
}

// ── Unauthorized and missing records ────────────────────────────────────────

#[test]
fn test_unauthorized_accept_nonexistent_agreement() {
    let mut c = CommissionAgreementContract::new();
    let result = c.accept_agreement(&bytes_key(&[99]));
    assert_eq!(result.unwrap_err().1, AgreementError::NotFound);
}

#[test]
fn test_unauthorized_propose_milestone_no_agreement() {
    let mut c = CommissionAgreementContract::new();
    let result = c.propose_milestone(&bytes_key(&[77]), bytes_key(&[1]), "Test".to_string(), 1000);
    assert_eq!(result.unwrap_err().1, AgreementError::NotFound);
}

#[test]
fn test_unauthorized_approve_nonexistent_milestone() {
    let mut c = CommissionAgreementContract::new();
    let commission_id = bytes_key(&[1]);
    let _ = create(&mut c, &commission_id, "Art", 5000, 100, 10);
    let _ = c.accept_agreement(&commission_id);
    let result = c.approve_milestone(&commission_id, &bytes_key(&[1]));
    assert_eq!(result.unwrap_err().1, AgreementError::NotFound);
}

#[test]
fn test_unauthorized_reject_nonexistent_agreement() {
    let mut c = CommissionAgreementContract::new();
    let result = c.reject_agreement(&bytes_key(&[55]), "No thanks".to_string());
    assert_eq!(result.unwrap_err().1, AgreementError::NotFound);
}

#[test]
fn test_unauthorized_deadline_in_past() {
    let mut c = CommissionAgreementContract::new();
    let result = create(&mut c, &bytes_key(&[1]), "Art", 1000, 100, 200);
    assert_eq!(result.unwrap_err().1, AgreementError::DeadlineInPast);
}

// ── Edge cases ──────────────────────────────────────────────────────────────

#[test]
fn test_edge_case_zero_budget_rejected() {
    let mut c = CommissionAgreementContract::new();
    let result = create(&mut c, &bytes_key(&[1]), "Art", 0, 100, 10);
    assert_eq!(result.unwrap_err().1, AgreementError::InvalidAmount);
}

#[test]
fn test_edge_case_negative_budget_rejected() {
    let mut c = CommissionAgreementContract::new();
    let result = create(&mut c, &bytes_key(&[1]), "Art", -1, 100, 10);
    assert_eq!(result.unwrap_err().1, AgreementError::InvalidAmount);
}

#[test]
fn test_edge_case_large_budget_accepted() {
    let mut c = CommissionAgreementContract::new();
    let large_budget: i128 = i128::MAX / 2;
    let result = create(&mut c, &bytes_key(&[1]), "Mega Art", large_budget, 100, 10);
    assert!(result.is_ok(), "Large budget should be accepted");
}

#[test]
fn test_edge_case_zero_milestone_amount_rejected() {
    let mut c = CommissionAgreementContract::new();
    let commission_id = bytes_key(&[1]);
    let _ = create(&mut c, &commission_id, "Art", 5000, 100, 10);
    let _ = c.accept_agreement(&commission_id);
    let result = c.propose_milestone(&commission_id, bytes_key(&[1]), "Art".to_string(), 0);
    assert_eq!(result.unwrap_err().1, AgreementError::InvalidAmount);
}

#[test]
fn test_edge_case_duplicate_commission_id_rejected() {
    let mut c = CommissionAgreementContract::new();
    let commission_id = bytes_key(&[1]);
    let _ = create(&mut c, &commission_id, "Art", 1000, 100, 10);
    let result = create(&mut c, &commission_id, "Art", 1000, 100, 10);
    assert_eq!(result.unwrap_err().1, AgreementError::AlreadyExists);
}

// ── Lifecycles ──────────────────────────────────────────────────────────────

#[test]
fn test_full_commission_lifecycle() {
    let mut c = CommissionAgreementContract::new();
    let commission_id = bytes_key(&[1, 2, 3]);
    let milestone_id = bytes_key(&[10]);

    create(&mut c, &commission_id, "Album Cover Design", 5000, 500, 10).unwrap();
    let agreement = c.get_agreement(&commission_id).unwrap();
    assert_eq!(agreement.status, AgreementStatus::Pending);
    assert_eq!(agreement.budget_usdc, 5000);

    c.accept_agreement(&commission_id).unwrap();
    let agreement = c.get_agreement(&commission_id).unwrap();
    assert_eq!(agreement.status, AgreementStatus::Active);

    c.propose_milestone(&commission_id, milestone_id.clone(), "Initial Sketches".to_string(), 2000)
        .unwrap();
    let milestones = c.get_milestones(&commission_id).unwrap();
    assert_eq!(milestones.len(), 1);
    assert_eq!(milestones[0].status, MilestoneStatus::Pending);
    assert_eq!(milestones[0].amount_usdc, 2000);

    c.approve_milestone(&commission_id, &milestone_id).unwrap();
    let milestones = c.get_milestones(&commission_id).unwrap();
    assert_eq!(milestones[0].status, MilestoneStatus::Approved);
}

#[test]
fn test_lifecycle_create_then_reject() {
    let mut c = CommissionAgreementContract::new();
    let commission_id = bytes_key(&[5]);
    create(&mut c, &commission_id, "Logo", 1000, 100, 10).unwrap();
    c.reject_agreement(&commission_id, "Price too low".to_string()).unwrap();
    let agreement = c.get_agreement(&commission_id).unwrap();
    assert_eq!(agreement.status, AgreementStatus::Cancelled);
}

#[test]
fn test_lifecycle_double_accept_fails() {
    let mut c = CommissionAgreementContract::new();
    let commission_id = bytes_key(&[7]);
    create(&mut c, &commission_id, "Poster", 3000, 100, 10).unwrap();
    c.accept_agreement(&commission_id).unwrap();
    let result = c.accept_agreement(&commission_id);
    assert_eq!(result.unwrap_err().1, AgreementError::InvalidStatus);
}

#[test]
fn test_lifecycle_multiple_milestones() {
    let mut c = CommissionAgreementContract::new();
    let commission_id = bytes_key(&[3]);
    create(&mut c, &commission_id, "Mural", 9000, 300, 10).unwrap();
    c.accept_agreement(&commission_id).unwrap();
    for i in 0u8..3u8 {
        c.propose_milestone(&commission_id, bytes_key(&[i]), "Phase".to_string(), 3000).unwrap();
    }
    let milestones = c.get_milestones(&commission_id).unwrap();
    assert_eq!(milestones.len(), 3);
    c.approve_milestone(&commission_id, &bytes_key(&[1])).unwrap();
    let milestones = c.get_milestones(&commission_id).unwrap();
    let approved_count =
        milestones.iter().filter(|m| m.status == MilestoneStatus::Approved).count();
    assert_eq!(approved_count, 1);
    assert_eq!(c.get_agreement(&commission_id).unwrap().status, AgreementStatus::Active);
}

// ── Dispute status and auto-resolve arithmetic ──────────────────────────────

#[test]
fn test_dispute_status_constants() {
    assert_eq!(AgreementStatus::Disputed as u32, 4);
    assert_eq!(AgreementStatus::Active as u32, 1);
}

#[test]
fn test_dispute_integration_active_to_disputed() {
    let active = AgreementStatus::Active;
    let can_dispute = active == AgreementStatus::Active;
    assert!(can_dispute, "An Active agreement should be disputable");
}

#[test]
fn test_dispute_integration_pending_cannot_be_disputed() {
    let pending = AgreementStatus::Pending;
    let can_dispute = pending == AgreementStatus::Active;
    assert!(!can_dispute, "Pending agreement is not yet disputable");
}

#[test]
fn test_dispute_integration_cancelled_cannot_be_disputed() {
    let cancelled = AgreementStatus::Cancelled;
    let can_dispute = cancelled == AgreementStatus::Active;
    assert!(!can_dispute, "Cancelled agreement cannot be disputed");
}

#[test]
fn test_dispute_auto_resolve_not_due_before_window() {
    let dispute_ledger: u32 = 100;
    let auto_resolve_ledgers: u32 = 1000;
    let auto_resolve_at = dispute_ledger + auto_resolve_ledgers;
    let current: u32 = 500;
    assert!(current < auto_resolve_at, "Auto-resolve not due yet at ledger 500");
}

#[test]
fn test_dispute_auto_resolve_due_after_window() {
    let dispute_ledger: u32 = 100;
    let auto_resolve_ledgers: u32 = 1000;
    let auto_resolve_at = dispute_ledger + auto_resolve_ledgers;
    let current: u32 = 1101;
    assert!(current >= auto_resolve_at, "Auto-resolve should trigger at ledger 1101");
}

#[test]
fn test_dispute_auto_resolve_zero_window() {
    let dispute_ledger: u32 = 200;
    let auto_resolve_ledgers: u32 = 0;
    let auto_resolve_at = dispute_ledger + auto_resolve_ledgers;
    let current: u32 = 200;
    assert!(current >= auto_resolve_at, "Immediate auto-resolve should work");
}

// ── Contract effects, errors and the budget law ─────────────────────────────

#[test]
fn agreement_effects_are_exact() {
    let mut c = CommissionAgreementContract::new();
    let id = bytes_key(&[9]);
    let effects = create(&mut c, &id, "Portrait", 800, 20, 10).unwrap();
    assert_eq!(
        effects,
        vec![
            Effect::RequireAuth { who: CLIENT.to_string() },
            Effect::Emit {
                event: Event::AgreementCreated {
                    commission_id: id.clone(),
                    client: CLIENT.to_string(),
                    artist: ARTIST.to_string(),
                    budget_usdc: 800
                }
            },
        ]
    );
    let effects = c.accept_agreement(&id).unwrap();
    assert_eq!(
        effects,
        vec![
            Effect::RequireAuth { who: ARTIST.to_string() },
            Effect::Emit { event: Event::AgreementAccepted { commission_id: id.clone() } },
        ]
    );
    let effects = c.propose_milestone(&id, "m1".to_string(), "Sketch".to_string(), 300).unwrap();
    assert_eq!(
        effects[1],
        Effect::Emit {
            event: Event::MilestoneProposed {
                commission_id: id.clone(),
                milestone_id: "m1".to_string(),
                amount_usdc: 300
            }
        }
    );
    let effects = c.approve_milestone(&id, "m1").unwrap();
    assert_eq!(
        effects,
        vec![
            Effect::RequireAuth { who: CLIENT.to_string() },
            Effect::Emit {
                event: Event::MilestoneApproved {
                    commission_id: id.clone(),
                    milestone_id: "m1".to_string()
                }
            },
        ]
    );
}

#[test]
fn milestones_never_exceed_budget() {
    let mut c = CommissionAgreementContract::new();
    let id = "c-budget";
    create(&mut c, id, "Budget", 1000, 20, 10).unwrap();
    c.accept_agreement(id).unwrap();
    c.propose_milestone(id, "a".to_string(), "A".to_string(), 400).unwrap();
    c.propose_milestone(id, "b".to_string(), "B".to_string(), 600).unwrap();
    assert_eq!(
        c.propose_milestone(id, "c".to_string(), "C".to_string(), 1).unwrap_err().1,
        AgreementError::MilestoneBudgetExceeded
    );
    let total: i128 = c.get_milestones(id).unwrap().iter().map(|m| m.amount_usdc).sum();
    assert_eq!(total, 1000);
}

#[test]
fn approving_last_pending_milestone_completes() {
    let mut c = CommissionAgreementContract::new();
    let id = "c-two";
    create(&mut c, id, "Two", 1000, 20, 10).unwrap();
    c.accept_agreement(id).unwrap();
    c.propose_milestone(id, "a".to_string(), "A".to_string(), 400).unwrap();
    c.propose_milestone(id, "b".to_string(), "B".to_string(), 400).unwrap();
    c.approve_milestone(id, "b").unwrap();
    assert_eq!(c.get_agreement(id).unwrap().status, AgreementStatus::Active);
    assert_eq!(c.approve_milestone(id, "b").unwrap_err().1, AgreementError::InvalidStatus);
    c.approve_milestone(id, "a").unwrap();
    assert_eq!(c.get_agreement(id).unwrap().status, AgreementStatus::Completed);
    assert_eq!(c.approve_milestone(id, "a").unwrap_err().1, AgreementError::InvalidStatus);
}

#[test]
fn propose_on_pending_agreement_is_invalid_status() {
    let mut c = CommissionAgreementContract::new();
    create(&mut c, "p", "P", 1000, 20, 10).unwrap();
    assert_eq!(
        c.propose_milestone("p", "m".to_string(), "M".to_string(), 10).unwrap_err().1,
        AgreementError::InvalidStatus
    );
    assert_eq!(c.approve_milestone("p", "m").unwrap_err().1, AgreementError::InvalidStatus);
    c.reject_agreement("p", "no".to_string()).unwrap();
    assert_eq!(c.reject_agreement("p", "again".to_string()).unwrap_err().1, AgreementError::InvalidStatus);
}

#[test]
fn agreement_error_codes_messages_and_suggestions() {
    assert_eq!(AgreementError::AlreadyExists.code(), 1);
    assert_eq!(AgreementError::NotAllMilestonesApproved.code(), 8);
    assert_eq!(AgreementError::ArithmeticOverflow.code(), 9);
    assert_eq!(AgreementError::DeadlineInPast.message(), "deadline in past");
    assert_eq!(AgreementError::MilestoneBudgetExceeded.message(), "milestone budget exceeded");
    assert_eq!(get_suggestion(AgreementError::InvalidStatus), "BAD_STATUS");
    assert_eq!(get_suggestion(AgreementError::MilestoneBudgetExceeded), "OVER_BUD");
    assert_eq!(get_suggestion(AgreementError::Unauthorized), "AUTH");
}

#[test]
fn saved_agreement_round_trips_within_budget() {
    let mut a = CommissionAgreementContract::new();
    create(&mut a, "s", "Saved", 1000, 20, 10).unwrap();
    a.accept_agreement("s").unwrap();
    a.propose_milestone("s", "m1".to_string(), "One".to_string(), 700).unwrap();
    let record = a.get_agreement("s").unwrap();
    let milestones = a.get_milestones("s").unwrap();

    let mut b = CommissionAgreementContract::new();
    let copies: Vec<_> = milestones.iter().map(|m| m.copy()).collect();
    assert!(b.save_agreement(record.copy(), copies));
    assert_eq!(b.get_agreement("s").unwrap(), record);
    assert_eq!(b.get_milestones("s").unwrap(), milestones);
    assert_eq!(
        b.propose_milestone("s", "m2".to_string(), "Two".to_string(), 301).unwrap_err().1,
        AgreementError::MilestoneBudgetExceeded
    );

    let mut over = milestones.iter().map(|m| m.copy()).collect::<Vec<_>>();
    over.push(milestones[0].copy());
    let mut c = CommissionAgreementContract::new();
    assert!(!c.save_agreement(record.copy(), over));
    assert_eq!(c.get_agreement("s").unwrap_err(), AgreementError::NotFound);
}

#[test]
fn completion_with_a_shared_milestone_id() {
    let mut c = CommissionAgreementContract::new();
    create(&mut c, "dup", "Dup", 1000, 20, 10).unwrap();
    c.accept_agreement("dup").unwrap();
    c.propose_milestone("dup", "m".to_string(), "First".to_string(), 100).unwrap();
    c.propose_milestone("dup", "m".to_string(), "Second".to_string(), 200).unwrap();
    c.approve_milestone("dup", "m").unwrap();
    let ms = c.get_milestones("dup").unwrap();
    assert_eq!(ms[0].status, MilestoneStatus::Pending);
    assert_eq!(ms[1].status, MilestoneStatus::Approved);
    assert_eq!(c.get_agreement("dup").unwrap().status, AgreementStatus::Completed);
}

#[test]
fn refusals_after_lookup_still_demand_authorization() {
    let mut c = CommissionAgreementContract::new();
    assert_eq!(c.accept_agreement("none").unwrap_err(), (vec![], AgreementError::NotFound));
    let refused = create(&mut c, "x", "X", 0, 20, 10).unwrap_err();
    assert_eq!(refused, (vec![Effect::RequireAuth { who: CLIENT.to_string() }], AgreementError::InvalidAmount));
    create(&mut c, "x", "X", 100, 20, 10).unwrap();
    let refused = c.propose_milestone("x", "m".to_string(), "M".to_string(), 5).unwrap_err();
    assert_eq!(refused, (vec![Effect::RequireAuth { who: ARTIST.to_string() }], AgreementError::InvalidStatus));
    c.accept_agreement("x").unwrap();
    let refused = c.approve_milestone("x", "missing").unwrap_err();
    assert_eq!(refused, (vec![Effect::RequireAuth { who: CLIENT.to_string() }], AgreementError::NotFound));
}
