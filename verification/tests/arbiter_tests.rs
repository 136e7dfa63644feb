use stellar_aid::arbiter::{get_suggestion, DisputeArbiter, DisputeError, DisputeStatus};
use stellar_aid::codec::bytes_key;
use stellar_aid::host::{Call, Effect, Event};

const ADMIN: &str = "GADMIN";
const ESCROW: &str = "CESCROW";
const CONFIG: &str = "CCONFIG";
const INITIATOR: &str = "GINITIATOR";

fn initialized(auto_resolve: u32) -> DisputeArbiter {
    let mut a = DisputeArbiter::new();
    a.initialize(ADMIN.to_string(), ESCROW.to_string(), CONFIG.to_string(), auto_resolve).unwrap();
    a
}

fn commission() -> String {
    bytes_key(&[1u8, 2, 3])
}

fn emitted(effects: &[Effect]) -> usize {
    effects.iter().filter(|e| matches!(e, Effect::Emit { .. })).count()
}

#[test]
fn test_initialize_succeeds() {
    let mut a = DisputeArbiter::new();
    let result = a.initialize(ADMIN.to_string(), ESCROW.to_string(), CONFIG.to_string(), 100);
    assert!(result.is_ok());
}

#[test]
fn test_initialize_double_init_fails() {
    let mut a = DisputeArbiter::new();
    let _ = a.initialize(ADMIN.to_string(), ESCROW.to_string(), CONFIG.to_string(), 100);
    let result = a.initialize(ADMIN.to_string(), ESCROW.to_string(), CONFIG.to_string(), 100);
    assert_eq!(result.unwrap_err(), DisputeError::AlreadyInitialized);
}

#[test]
fn test_open_dispute_succeeds() {
    let mut a = initialized(100);
    let result = a.open_dispute(commission(), INITIATOR.to_string(), 0);
    assert!(result.is_ok());
    let record = a.get_dispute(&commission()).unwrap();
    assert_eq!(record.status, DisputeStatus::Open);
}

#[test]
fn test_open_dispute_already_exists_fails() {
    let mut a = initialized(100);
    let _ = a.open_dispute(commission(), INITIATOR.to_string(), 0);
    let result = a.open_dispute(commission(), INITIATOR.to_string(), 0);
    assert_eq!(result.unwrap_err(), DisputeError::AlreadyResolved);
}

#[test]
fn test_open_dispute_not_initialized_fails() {
    let mut a = DisputeArbiter::new();
    let result = a.open_dispute(commission(), INITIATOR.to_string(), 0);
    assert_eq!(result.unwrap_err(), DisputeError::NotInitialized);
}

#[test]
fn test_resolve_for_client_succeeds() {
    let mut a = initialized(100);
    let _ = a.open_dispute(commission(), INITIATOR.to_string(), 0);
    let result = a.resolve_for_client(&commission(), "Refunded".to_string());
    assert!(result.is_ok());
    let record = a.get_dispute(&commission()).unwrap();
    assert_eq!(record.status, DisputeStatus::ResolvedForClient);
}

#[test]
fn test_resolve_for_client_not_found_fails() {
    let mut a = initialized(100);
    let result = a.resolve_for_client(&commission(), "note".to_string());
    assert_eq!(result.unwrap_err(), DisputeError::NotFound);
}

#[test]
fn test_resolve_for_client_wrong_status_fails() {
    let mut a = initialized(100);
    let _ = a.open_dispute(commission(), INITIATOR.to_string(), 0);
    let _ = a.resolve_for_client(&commission(), "first".to_string());
    let result = a.resolve_for_client(&commission(), "second".to_string());
    assert_eq!(result.unwrap_err(), DisputeError::InvalidStatus);
}

#[test]
fn test_resolve_for_artist_succeeds() {
    let mut a = initialized(100);
    let _ = a.open_dispute(commission(), INITIATOR.to_string(), 0);
    let result = a.resolve_for_artist(&commission(), "Paid".to_string());
    assert!(result.is_ok());
    let record = a.get_dispute(&commission()).unwrap();
    assert_eq!(record.status, DisputeStatus::ResolvedForArtist);
}

#[test]
fn test_resolve_for_artist_not_found_fails() {
    let mut a = initialized(100);
    let result = a.resolve_for_artist(&commission(), "note".to_string());
    assert_eq!(result.unwrap_err(), DisputeError::NotFound);
}

#[test]
fn test_resolve_for_artist_wrong_status_fails() {
    let mut a = initialized(100);
    let _ = a.open_dispute(commission(), INITIATOR.to_string(), 0);
    let _ = a.resolve_for_artist(&commission(), "first".to_string());
    let result = a.resolve_for_artist(&commission(), "second".to_string());
    assert_eq!(result.unwrap_err(), DisputeError::InvalidStatus);
}

#[test]
fn test_partial_resolve_4000_bps() {
    let mut a = initialized(100);
    let _ = a.open_dispute(commission(), INITIATOR.to_string(), 0);
    let result = a.partial_resolve(&commission(), 4000, "40pct client".to_string());
    assert!(result.is_ok());
    let record = a.get_dispute(&commission()).unwrap();
    assert_eq!(record.status, DisputeStatus::PartiallyResolved);
}

#[test]
fn test_partial_resolve_invalid_bps_fails() {
    let mut a = initialized(100);
    let _ = a.open_dispute(commission(), INITIATOR.to_string(), 0);
    let result = a.partial_resolve(&commission(), 10001, "bad".to_string());
    assert_eq!(result.unwrap_err(), DisputeError::InvalidShareBps);
}

#[test]
fn test_partial_resolve_valid_bps_boundary() {
    let mut a = initialized(100);
    let _ = a.open_dispute(commission(), INITIATOR.to_string(), 0);
    let result = a.partial_resolve(&commission(), 10000, "all_client".to_string());
    assert!(result.is_ok());
}

#[test]
fn test_partial_resolve_not_found_fails() {
    let mut a = initialized(100);
    let result = a.partial_resolve(&commission(), 5000, "note".to_string());
    assert_eq!(result.unwrap_err(), DisputeError::NotFound);
}

#[test]
fn test_partial_resolve_wrong_status_fails() {
    let mut a = initialized(100);
    let _ = a.open_dispute(commission(), INITIATOR.to_string(), 0);
    let _ = a.resolve_for_client(&commission(), "done".to_string());
    let result = a.partial_resolve(&commission(), 5000, "note".to_string());
    assert_eq!(result.unwrap_err(), DisputeError::InvalidStatus);
}

#[test]
fn test_auto_resolve_before_timeout_fails() {
    let mut a = initialized(100);
    let _ = a.open_dispute(commission(), INITIATOR.to_string(), 0);
    let result = a.auto_resolve(&commission(), 0);
    assert_eq!(result.unwrap_err(), DisputeError::AutoResolveNotDue);
}

#[test]
fn test_auto_resolve_at_timeout_succeeds() {
    let mut a = initialized(100);
    let _ = a.open_dispute(commission(), INITIATOR.to_string(), 0);
    let result = a.auto_resolve(&commission(), 101);
    assert!(result.is_ok());
    let record = a.get_dispute(&commission()).unwrap();
    assert_eq!(record.status, DisputeStatus::AutoResolved);
}

#[test]
fn test_auto_resolve_after_timeout_succeeds() {
    let mut a = initialized(100);
    let _ = a.open_dispute(commission(), INITIATOR.to_string(), 0);
    let result = a.auto_resolve(&commission(), 200);
    assert!(result.is_ok());
}

#[test]
fn test_auto_resolve_not_found_fails() {
    let mut a = initialized(100);
    let result = a.auto_resolve(&commission(), 0);
    assert_eq!(result.unwrap_err(), DisputeError::NotFound);
}

#[test]
fn test_auto_resolve_wrong_status_fails() {
    let mut a = initialized(100);
    let _ = a.open_dispute(commission(), INITIATOR.to_string(), 0);
    let _ = a.auto_resolve(&commission(), 101);
    let result = a.auto_resolve(&commission(), 101);
    assert_eq!(result.unwrap_err(), DisputeError::InvalidStatus);
}

#[test]
fn test_get_dispute_succeeds() {
    let mut a = initialized(100);
    let _ = a.open_dispute(commission(), INITIATOR.to_string(), 0);
    let record = a.get_dispute(&commission()).unwrap();
    assert_eq!(record.commission_id, commission());
    assert_eq!(record.status, DisputeStatus::Open);
}

#[test]
fn test_get_dispute_not_found_fails() {
    let a = initialized(100);
    let result = a.get_dispute(&commission());
    assert_eq!(result.unwrap_err(), DisputeError::NotFound);
}

#[test]
fn test_error_codes() {
    assert_eq!(DisputeError::AlreadyInitialized.code(), 1);
    assert_eq!(DisputeError::NotInitialized.code(), 2);
    assert_eq!(DisputeError::Unauthorized.code(), 3);
    assert_eq!(DisputeError::NotFound.code(), 4);
    assert_eq!(DisputeError::InvalidStatus.code(), 5);
    assert_eq!(DisputeError::AlreadyResolved.code(), 6);
    assert_eq!(DisputeError::AutoResolveNotDue.code(), 7);
    assert_eq!(DisputeError::InvalidShareBps.code(), 8);
}

#[test]
fn test_dispute_status_values() {
    assert_eq!(DisputeStatus::Open as u32, 0);
    assert_eq!(DisputeStatus::ResolvedForClient as u32, 1);
    assert_eq!(DisputeStatus::ResolvedForArtist as u32, 2);
    assert_eq!(DisputeStatus::PartiallyResolved as u32, 3);
    assert_eq!(DisputeStatus::AutoResolved as u32, 4);
}

#[test]
fn test_open_dispute_emits_event() {
    let mut a = initialized(100);
    let events = a.open_dispute(commission(), INITIATOR.to_string(), 0).unwrap();
    assert!(emitted(&events) > 0);
}

#[test]
fn test_resolve_for_client_emits_event() {
    let mut a = initialized(100);
    let mut events = a.open_dispute(commission(), INITIATOR.to_string(), 0).unwrap();
    events.extend(a.resolve_for_client(&commission(), "Refunded".to_string()).unwrap());
    assert!(emitted(&events) >= 2);
}

#[test]
fn test_resolve_for_artist_emits_event() {
    let mut a = initialized(100);
    let mut events = a.open_dispute(commission(), INITIATOR.to_string(), 0).unwrap();
    events.extend(a.resolve_for_artist(&commission(), "Paid".to_string()).unwrap());
    assert!(emitted(&events) >= 2);
}

#[test]
fn test_partial_resolve_emits_event() {
    let mut a = initialized(100);
    let mut events = a.open_dispute(commission(), INITIATOR.to_string(), 0).unwrap();
    events.extend(a.partial_resolve(&commission(), 4000, "split".to_string()).unwrap());
    assert!(emitted(&events) >= 2);
}

#[test]
fn test_auto_resolve_emits_event() {
    let mut a = initialized(100);
    let mut events = a.open_dispute(commission(), INITIATOR.to_string(), 0).unwrap();
    events.extend(a.auto_resolve(&commission(), 101).unwrap());
    assert!(emitted(&events) >= 2);
}

// ── Exact effects and the resolution laws ───────────────────────────────────

#[test]
fn open_dispute_effects_and_due_ledger() {
    let mut a = initialized(1000);
    let effects = a.open_dispute("c9".to_string(), INITIATOR.to_string(), 100).unwrap();
    assert_eq!(
        effects,
        vec![
            Effect::RequireAuth { who: INITIATOR.to_string() },
            Effect::Invoke {
                call: Call::EscrowOpenDispute {
                    escrow: ESCROW.to_string(),
                    commission_id: "c9".to_string(),
                    initiator: INITIATOR.to_string()
                }
            },
            Effect::Emit {
                event: Event::DisputeOpened {
                    commission_id: "c9".to_string(),
                    initiator: INITIATOR.to_string()
                }
            },
        ]
    );
    let rec = a.get_dispute("c9").unwrap();
    assert_eq!(rec.opened_ledger, 100);
    assert_eq!(rec.auto_resolve_ledger, 1100);
    assert_eq!(rec.resolution_note, None);
    assert_eq!(a.auto_resolve("c9", 1099).unwrap_err(), DisputeError::AutoResolveNotDue);
    assert!(a.auto_resolve("c9", 1100).is_ok());
}

#[test]
fn due_ledger_saturates_at_the_last_ledger() {
    let mut a = initialized(u32::MAX);
    a.open_dispute("late".to_string(), INITIATOR.to_string(), 10).unwrap();
    assert_eq!(a.get_dispute("late").unwrap().auto_resolve_ledger, u32::MAX);
}

#[test]
fn resolutions_call_the_escrow() {
    let mut a = initialized(10);
    a.open_dispute("a".to_string(), INITIATOR.to_string(), 0).unwrap();
    let effects = a.resolve_for_client("a", "refund".to_string()).unwrap();
    assert_eq!(
        effects,
        vec![
            Effect::RequireAuth { who: ADMIN.to_string() },
            Effect::Invoke {
                call: Call::EscrowRefundClient {
                    escrow: ESCROW.to_string(),
                    commission_id: "a".to_string(),
                    config: CONFIG.to_string()
                }
            },
            Effect::Emit { event: Event::DisputeResolvedForClient { commission_id: "a".to_string() } },
        ]
    );
    assert_eq!(a.get_dispute("a").unwrap().resolution_note, Some("refund".to_string()));

    a.open_dispute("b".to_string(), INITIATOR.to_string(), 0).unwrap();
    let effects = a.resolve_for_artist("b", "pay".to_string()).unwrap();
    assert_eq!(
        effects[1],
        Effect::Invoke {
            call: Call::EscrowReleasePayment {
                escrow: ESCROW.to_string(),
                commission_id: "b".to_string(),
                config: CONFIG.to_string()
            }
        }
    );

    a.open_dispute("c".to_string(), INITIATOR.to_string(), 0).unwrap();
    let effects = a.auto_resolve("c", 10).unwrap();
    assert_eq!(
        effects,
        vec![
            Effect::Invoke {
                call: Call::EscrowRefundClient {
                    escrow: ESCROW.to_string(),
                    commission_id: "c".to_string(),
                    config: CONFIG.to_string()
                }
            },
            Effect::Emit { event: Event::DisputeAutoResolved { commission_id: "c".to_string() } },
        ]
    );
}

#[test]
fn resolved_dispute_is_final() {
    let mut a = initialized(0);
    a.open_dispute("x".to_string(), INITIATOR.to_string(), 5).unwrap();
    a.partial_resolve("x", 2500, "quarter".to_string()).unwrap();
    assert_eq!(a.resolve_for_client("x", "n".to_string()).unwrap_err(), DisputeError::InvalidStatus);
    assert_eq!(a.resolve_for_artist("x", "n".to_string()).unwrap_err(), DisputeError::InvalidStatus);
    assert_eq!(a.partial_resolve("x", 1, "n".to_string()).unwrap_err(), DisputeError::InvalidStatus);
    assert_eq!(a.auto_resolve("x", 100).unwrap_err(), DisputeError::InvalidStatus);
    assert_eq!(a.get_dispute("x").unwrap().status, DisputeStatus::PartiallyResolved);
}

#[test]
fn uninitialized_arbiter_refuses_everything() {
    let mut a = DisputeArbiter::new();
    assert_eq!(a.resolve_for_client("x", "n".to_string()).unwrap_err(), DisputeError::NotInitialized);
    assert_eq!(a.resolve_for_artist("x", "n".to_string()).unwrap_err(), DisputeError::NotInitialized);
    assert_eq!(a.partial_resolve("x", 1, "n".to_string()).unwrap_err(), DisputeError::NotInitialized);
    assert_eq!(a.auto_resolve("x", 1).unwrap_err(), DisputeError::NotInitialized);
}

#[test]
fn dispute_error_messages_and_suggestions() {
    assert_eq!(DisputeError::NotFound.message(), "dispute not found");
    assert_eq!(DisputeError::AutoResolveNotDue.message(), "auto-resolve not yet due");
    assert_eq!(get_suggestion(DisputeError::AlreadyResolved), "RESOLVED");
    assert_eq!(get_suggestion(DisputeError::NotInitialized), "NO_INIT");
    assert_eq!(get_suggestion(DisputeError::InvalidShareBps), "BAD_BPS");
}

#[test]
fn saved_dispute_round_trips() {
    let mut a = initialized(50);
    a.open_dispute("s".to_string(), INITIATOR.to_string(), 7).unwrap();
    let record = a.get_dispute("s").unwrap();
    let mut b = initialized(50);
    b.save_dispute(record.copy());
    assert_eq!(b.get_dispute("s").unwrap(), record);
    assert_eq!(b.auto_resolve("s", 56).unwrap_err(), DisputeError::AutoResolveNotDue);
    assert!(b.auto_resolve("s", 57).is_ok());
}
