use stellar_aid::governance::{
    AssetAmount, CommissionSignatureContract, CourtDisputeStatus, CreatorCooperativeDAO,
    DisputeResolutionContract, EscrowMultiAssetContract,
};
use stellar_aid::host::Effect;

#[test]
fn dao_numbers_proposals_and_counts_votes() {
    let mut dao = CreatorCooperativeDAO::new();
    let effects = dao.add_member("GMEMBER".to_string());
    assert_eq!(effects, vec![Effect::RequireAuth { who: "GMEMBER".to_string() }]);
    let (first, effects) = dao.create_proposal("GMEMBER".to_string(), "mural".to_string());
    assert_eq!(first, 1);
    assert_eq!(effects, vec![Effect::RequireAuth { who: "GMEMBER".to_string() }]);
    let (second, _) = dao.create_proposal("GMEMBER".to_string(), "zine".to_string());
    assert_eq!(second, 2);
    let effects = dao.vote("GVOTER".to_string(), 1, true);
    assert_eq!(effects, vec![Effect::RequireAuth { who: "GVOTER".to_string() }]);
    dao.vote("GVOTER2".to_string(), 1, false);
    dao.vote("GVOTER3".to_string(), 1, true);
    dao.vote("GVOTER3".to_string(), 2, false);
}

#[test]
fn court_disputes_are_numbered_and_resolved() {
    let mut c = DisputeResolutionContract::new();
    let (id, effects) =
        c.raise_dispute("GCLAIM".to_string(), "GRESP".to_string(), "late delivery".to_string());
    assert_eq!(id, 1);
    assert_eq!(effects, vec![Effect::RequireAuth { who: "GCLAIM".to_string() }]);
    let (id2, _) = c.raise_dispute("GCLAIM".to_string(), "GRESP".to_string(), "again".to_string());
    assert_eq!(id2, 2);
    c.resolve_dispute(1, 2);
    assert_ne!(CourtDisputeStatus::Resolved, CourtDisputeStatus::Pending);
}

#[test]
fn commission_signature_flow() {
    let mut c = CommissionSignatureContract::new();
    let a = c.create_agreement(7, "GAGENT".to_string(), "GPLATFORM".to_string(), 1500);
    assert!(!a.signed);
    assert_eq!(a.commission_rate, 1500);
    assert_eq!(c.get_agreement(7), a);
    let (ok, effects) = c.sign_agreement(7, "GAGENT".to_string());
    assert!(ok);
    assert_eq!(effects, vec![Effect::RequireAuth { who: "GAGENT".to_string() }]);
    let signed = c.get_agreement(7);
    assert!(signed.signed);
    assert_eq!(signed.agent, "GAGENT");
    assert_eq!(signed.platform, "GPLATFORM");
}

#[test]
fn multi_asset_escrow_flow() {
    let mut c = EscrowMultiAssetContract::new();
    let assets = vec![
        AssetAmount { asset_id: "USDC".to_string(), amount: 100 },
        AssetAmount { asset_id: "XLM".to_string(), amount: 5 },
    ];
    let (id, effects) = c.create_escrow("GDEP".to_string(), "GBEN".to_string(), assets);
    assert_eq!(id, 0);
    assert_eq!(effects, vec![Effect::RequireAuth { who: "GDEP".to_string() }]);
    let (id1, _) = c.create_escrow("GDEP".to_string(), "GBEN".to_string(), vec![]);
    assert_eq!(id1, 1);
    let e = c.get_escrow(0);
    assert!(!e.released);
    assert_eq!(e.assets.len(), 2);
    assert_eq!(e.assets[1].asset_id, "XLM");
    let (ok, effects) = c.release_escrow(0, "GAUTH".to_string());
    assert!(ok);
    assert_eq!(effects, vec![Effect::RequireAuth { who: "GAUTH".to_string() }]);
    assert!(c.get_escrow(0).released);
    assert!(!c.get_escrow(1).released);
}
