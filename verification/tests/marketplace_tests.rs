use stellar_aid::bridge::{CrossChainBridge, TxStatus};
use stellar_aid::config_upgrade::PlatformConfigUpgrade;
use stellar_aid::emergency_pause::EscrowEmergencyPause;
use stellar_aid::grants::CreatorGrantsSystem;
use stellar_aid::licensing::{LicenseType, LicensingMarketplace};
use stellar_aid::tip_payment::EscrowTipManager;

#[test]
fn pause_and_unpause() {
    let mut p = EscrowEmergencyPause::new();
    assert!(p.check_not_paused().is_ok());
    assert_eq!(p.unpause("admin"), Err("Contract is not paused"));
    p.pause("admin", "exploit found").unwrap();
    assert_eq!(p.paused_by.as_deref(), Some("admin"));
    assert_eq!(p.pause_reason.as_deref(), Some("exploit found"));
    assert_eq!(p.check_not_paused(), Err("Contract is paused"));
    assert_eq!(p.pause("other", "again"), Err("Contract is already paused"));
    assert_eq!(p.paused_by.as_deref(), Some("admin"));
    p.unpause("admin2").unwrap();
    assert!(!p.is_paused);
    assert_eq!(p.paused_by.as_deref(), Some("admin2"));
    assert_eq!(p.pause_reason, None);
    assert!(EscrowEmergencyPause::default().check_not_paused().is_ok());
}

#[test]
fn tips_are_paid_oldest_first() {
    let mut m = EscrowTipManager::new();
    assert_eq!(m.add_tip(1, "alice", "bob", 10), 1);
    assert_eq!(m.add_tip(2, "alice", "carol", 20), 2);
    assert_eq!(m.add_tip(1, "dave", "bob", 30), 3);
    assert_eq!(m.get_pending_tips().len(), 3);
    assert_eq!(m.pay_tip(1), Ok(10));
    assert_eq!(m.pay_tip(1), Ok(30));
    assert_eq!(m.pay_tip(1), Err("No pending tip found for this escrow"));
    let pending = m.get_pending_tips();
    assert_eq!(pending.len(), 1);
    assert_eq!(pending[0].recipient, "carol");
    assert_eq!(m.pay_tip(9), Err("No pending tip found for this escrow"));
    assert_eq!(EscrowTipManager::default().next_tip_id, 1);
}

#[test]
fn upgrade_needs_admin_approval() {
    let mut u = PlatformConfigUpgrade::new("v1", "admin");
    assert_eq!(u.execute_upgrade(), Err("No pending upgrade proposal"));
    assert_eq!(u.approve_upgrade("admin"), Err("No pending upgrade proposal"));
    assert_eq!(u.propose_upgrade("dev", "v2"), 1);
    assert_eq!(u.execute_upgrade(), Err("Upgrade not approved"));
    assert_eq!(u.approve_upgrade("mallory"), Err("Only admin can approve upgrades"));
    u.approve_upgrade("admin").unwrap();
    assert_eq!(u.execute_upgrade(), Ok("v2".to_string()));
    assert_eq!(u.current_implementation, "v2");
    assert!(u.pending_proposal.is_none());
    assert_eq!(u.propose_upgrade("dev", "v3"), 2);
}

#[test]
fn licenses_for_asset_are_the_active_ones() {
    let mut m = LicensingMarketplace::new();
    let a = m.create_license("song".into(), "ann".into(), "bo".into(), LicenseType::Personal, 5);
    let b = m.create_license("song".into(), "ann".into(), "cy".into(), LicenseType::Commercial, 50);
    let c = m.create_license("art".into(), "ann".into(), "di".into(), LicenseType::Exclusive, 500);
    assert_eq!((a, b, c), (1, 2, 3));
    assert_eq!(m.get_licenses_for_asset("song").len(), 2);
    assert!(m.revoke_license(a));
    assert!(!m.revoke_license(42));
    let active = m.get_licenses_for_asset("song");
    assert_eq!(active.len(), 1);
    assert_eq!(active[0].licensee, "cy");
    assert_eq!(m.get_licenses_for_asset("art")[0].license_type, LicenseType::Exclusive);
    assert!(m.get_licenses_for_asset("film").is_empty());
}

#[test]
fn grants_submit_and_approve() {
    let mut g = CreatorGrantsSystem::new();
    let id = g.submit_grant("creator-1".into(), 1000, "album".into());
    assert_eq!(id, 1);
    assert!(!g.get_grant(id).unwrap().approved);
    assert!(g.approve_grant(id));
    assert!(g.get_grant(id).unwrap().approved);
    assert_eq!(g.get_grant(id).unwrap().amount, 1000);
    assert!(!g.approve_grant(2));
    assert!(g.get_grant(2).is_none());
    assert_eq!(g.submit_grant("creator-2".into(), 5, "zine".into()), 2);
}

#[test]
fn bridge_only_between_supported_chains() {
    let mut b = CrossChainBridge::new(vec!["stellar".to_string(), "ethereum".to_string()]);
    let id = b.initiate("stellar".into(), "ethereum".into(), 100, "s".into(), "r".into()).unwrap();
    assert_eq!(id, 1);
    assert_eq!(b.transactions[&1].status, TxStatus::Pending);
    assert_eq!(
        b.initiate("stellar".into(), "solana".into(), 1, "s".into(), "r".into()),
        Err("Unsupported chain".to_string())
    );
    assert_eq!(b.next_id, 2);
    assert!(b.complete(1));
    assert_eq!(b.transactions[&1].status, TxStatus::Completed);
    assert!(!b.complete(7));
}
