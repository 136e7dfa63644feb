//! Community contracts: the creator cooperative DAO, disputes referred to an
//! external court, on-chain commission signatures, and multi-asset escrows.
use vstd::prelude::*;
use vstd::hash_map::StringHashMap;
use std::collections::HashMap;
use crate::host::{Address, Effect};

verus! {

broadcast use vstd::std_specs::hash::group_hash_axioms;

// ── Creator cooperative DAO ────────────────────────────────────────────────

/// A proposal put to the cooperative's vote.
#[derive(Debug, PartialEq, Eq)]
pub struct Proposal {
    pub id: u64,
    pub title: String,
    pub proposer: Address,
    pub votes_for: u64,
    pub votes_against: u64,
    pub is_executed: bool,
}

impl Proposal {
    /// A field-by-field copy.
    pub fn copy(&self) -> (r: Proposal)
        ensures
            r == *self,
    {
        Proposal {
            id: self.id,
            title: self.title.clone(),
            proposer: self.proposer.clone(),
            votes_for: self.votes_for,
            votes_against: self.votes_against,
            is_executed: self.is_executed,
        }
    }
}

/// The DAO's persistent state: members, and proposals numbered from 1.
pub struct CreatorCooperativeDAO {
    members: StringHashMap<bool>,
    proposals: Vec<Proposal>,
}

impl CreatorCooperativeDAO {
    /// The member addresses.
    pub closed spec fn members(&self) -> Set<Seq<char>> {
        self.members@.dom()
    }

    /// The proposals: proposal `i + 1` is at position `i`.
    pub closed spec fn proposals(&self) -> Seq<Proposal> {
        self.proposals@
    }

    /// Each proposal carries its own number.
    pub open spec fn wf(&self) -> bool {
        forall|i: int| 0 <= i < self.proposals().len() ==> (#[trigger] self.proposals()[i]).id == i + 1
    }

    /// A DAO with no member and no proposal.
    pub fn new() -> (d: CreatorCooperativeDAO)
        ensures
            d.members() == Set::<Seq<char>>::empty(),
            d.proposals() == Seq::<Proposal>::empty(),
            d.wf(),
    {
        CreatorCooperativeDAO { members: StringHashMap::new(), proposals: Vec::new() }
    }

    /// Registers `member`.
    ///
    /// Needs `member`'s authorization.
    pub fn add_member(&mut self, member: Address) -> (effects: Vec<Effect>)
        requires
            old(self).wf(),
        ensures
            final(self).wf(),
            final(self).members() == old(self).members().insert(member@),
            final(self).proposals() == old(self).proposals(),
            effects@ == seq![Effect::RequireAuth { who: member }],
    {
        self.members.insert(member.clone(), true);
        assert(self.proposals() == old(self).proposals());
        let mut effects: Vec<Effect> = Vec::new();
        effects.push(Effect::RequireAuth { who: member });
        effects
    }

    /// Records a new proposal with no votes, numbered after the last one.
    ///
    /// Needs `proposer`'s authorization.
    pub fn create_proposal(&mut self, proposer: Address, title: String) -> (r: (u64, Vec<Effect>))
        requires
            old(self).wf(),
            old(self).proposals().len() < u64::MAX,
        ensures
            final(self).wf(),
            r.0 == old(self).proposals().len() + 1,
            final(self).proposals() == old(self).proposals().push(
                Proposal {
                    id: r.0,
                    title,
                    proposer,
                    votes_for: 0,
                    votes_against: 0,
                    is_executed: false,
                },
            ),
            final(self).members() == old(self).members(),
            r.1@ == seq![Effect::RequireAuth { who: proposer }],
    {
        let id = self.proposals.len() as u64 + 1;
        let mut effects: Vec<Effect> = Vec::new();
        effects.push(Effect::RequireAuth { who: proposer.clone() });
        self.proposals.push(
            Proposal { id, title, proposer, votes_for: 0, votes_against: 0, is_executed: false },
        );
        (id, effects)
    }

    /// Counts one vote for or against proposal `proposal_id`.
    ///
    /// Needs `voter`'s authorization.
    pub fn vote(&mut self, voter: Address, proposal_id: u64, approve: bool) -> (effects: Vec<
        Effect,
    >)
        requires
            old(self).wf(),
            1 <= proposal_id <= old(self).proposals().len(),
            approve ==> old(self).proposals()[proposal_id - 1].votes_for < u64::MAX,
            !approve ==> old(self).proposals()[proposal_id - 1].votes_against < u64::MAX,
        ensures
            final(self).wf(),
            ({
                let p = old(self).proposals()[proposal_id - 1];
                final(self).proposals() == old(self).proposals().update(
                    proposal_id - 1,
                    if approve {
                        Proposal { votes_for: (p.votes_for + 1) as u64, ..p }
                    } else {
                        Proposal { votes_against: (p.votes_against + 1) as u64, ..p }
                    },
                )
            }),
            final(self).members() == old(self).members(),
            effects@ == seq![Effect::RequireAuth { who: voter }],
    {
        assert(proposal_id - 1 < self.proposals.len());
        let i = (proposal_id - 1) as usize;
        assert(i == proposal_id - 1);
        let mut p = self.proposals[i].copy();
        if approve {
            p.votes_for = p.votes_for + 1;
        } else {
            p.votes_against = p.votes_against + 1;
        }
        self.proposals.set(i, p);
        let mut effects: Vec<Effect> = Vec::new();
        effects.push(Effect::RequireAuth { who: voter });
        effects
    }
}

// ── Disputes referred to an external court ─────────────────────────────────

/// Where a referred dispute stands.
#[derive(Clone, Copy, Debug, PartialEq, Eq, Structural)]
pub enum CourtDisputeStatus {
    Pending,
    UnderReview,
    Resolved,
    Appealed,
}

/// A dispute between a claimant and a respondent, with the court's ruling.
#[derive(Debug, PartialEq, Eq)]
pub struct Dispute {
    pub id: u64,
    pub claimant: Address,
    pub respondent: Address,
    pub description: String,
    pub status: CourtDisputeStatus,
    pub kleros_case_id: u64,
    pub ruling: u32,
}

impl Dispute {
    /// A field-by-field copy.
    pub fn copy(&self) -> (r: Dispute)
        ensures
            r == *self,
    {
        Dispute {
            id: self.id,
            claimant: self.claimant.clone(),
            respondent: self.respondent.clone(),
            description: self.description.clone(),
            status: self.status,
            kleros_case_id: self.kleros_case_id,
            ruling: self.ruling,
        }
    }
}

/// The dispute resolution contract's persistent state: disputes numbered
/// from 1.
pub struct DisputeResolutionContract {
    disputes: Vec<Dispute>,
}

impl View for DisputeResolutionContract {
    type V = Seq<Dispute>;

    /// The disputes: dispute `i + 1` is at position `i`.
    closed spec fn view(&self) -> Seq<Dispute> {
        self.disputes@
    }
}

impl DisputeResolutionContract {
    /// Each dispute carries its own number.
    pub open spec fn wf(&self) -> bool {
        forall|i: int| 0 <= i < self@.len() ==> (#[trigger] self@[i]).id == i + 1
    }

    /// A contract with no dispute.
    pub fn new() -> (c: DisputeResolutionContract)
        ensures
            c@ == Seq::<Dispute>::empty(),
            c.wf(),
    {
        DisputeResolutionContract { disputes: Vec::new() }
    }

    /// Records a pending dispute, numbered after the last one.
    ///
    /// Needs `claimant`'s authorization.
    pub fn raise_dispute(&mut self, claimant: Address, respondent: Address, description: String) -> (r:
        (u64, Vec<Effect>))
        requires
            old(self).wf(),
            old(self)@.len() < u64::MAX,
        ensures
            final(self).wf(),
            r.0 == old(self)@.len() + 1,
            final(self)@ == old(self)@.push(
                Dispute {
                    id: r.0,
                    claimant,
                    respondent,
                    description,
                    status: CourtDisputeStatus::Pending,
                    kleros_case_id: 0,
                    ruling: 0,
                },
            ),
            r.1@ == seq![Effect::RequireAuth { who: claimant }],
    {
        let id = self.disputes.len() as u64 + 1;
        let mut effects: Vec<Effect> = Vec::new();
        effects.push(Effect::RequireAuth { who: claimant.clone() });
        self.disputes.push(
            Dispute {
                id,
                claimant,
                respondent,
                description,
                status: CourtDisputeStatus::Pending,
                kleros_case_id: 0,
                ruling: 0,
            },
        );
        (id, effects)
    }

    /// Records the court's `ruling` on dispute `dispute_id` and marks it
    /// resolved.
    pub fn resolve_dispute(&mut self, dispute_id: u64, ruling: u32)
        requires
            old(self).wf(),
            1 <= dispute_id <= old(self)@.len(),
        ensures
            final(self).wf(),
            final(self)@ == old(self)@.update(
                dispute_id - 1,
                Dispute {
                    status: CourtDisputeStatus::Resolved,
                    ruling,
                    ..old(self)@[dispute_id - 1]
                },
            ),
    {
        let i = (dispute_id - 1) as usize;
        let mut d = self.disputes[i].copy();
        d.status = CourtDisputeStatus::Resolved;
        d.ruling = ruling;
        self.disputes.set(i, d);
    }
}

// ── Commission signatures ──────────────────────────────────────────────────

/// A commission agreement between an agent and the platform, to be signed.
#[derive(Debug, PartialEq, Eq)]
pub struct CommissionAgreement {
    pub agreement_id: u64,
    pub agent: Address,
    pub platform: Address,
    pub commission_rate: u32,
    pub signed: bool,
}

impl CommissionAgreement {
    /// A field-by-field copy.
    pub fn copy(&self) -> (r: CommissionAgreement)
        ensures
            r == *self,
    {
        CommissionAgreement {
            agreement_id: self.agreement_id,
            agent: self.agent.clone(),
            platform: self.platform.clone(),
            commission_rate: self.commission_rate,
            signed: self.signed,
        }
    }
}

/// The signature contract's persistent state: agreements by id.
pub struct CommissionSignatureContract {
    agreements: HashMap<u64, CommissionAgreement>,
}

impl View for CommissionSignatureContract {
    type V = Map<u64, CommissionAgreement>;

    /// The agreements, by agreement id.
    closed spec fn view(&self) -> Map<u64, CommissionAgreement> {
        self.agreements@
    }
}

impl CommissionSignatureContract {
    /// A contract with no agreement.
    pub fn new() -> (c: CommissionSignatureContract)
        ensures
            c@ == Map::<u64, CommissionAgreement>::empty(),
    {
        CommissionSignatureContract { agreements: HashMap::new() }
    }

    /// Records an unsigned agreement under `agreement_id`, replacing any
    /// earlier one.
    pub fn create_agreement(
        &mut self,
        agreement_id: u64,
        agent: Address,
        platform: Address,
        commission_rate: u32,
    ) -> (a: CommissionAgreement)
        ensures
            a == (CommissionAgreement {
                agreement_id,
                agent,
                platform,
                commission_rate,
                signed: false,
            }),
            final(self)@ == old(self)@.insert(agreement_id, a),
    {
        let a = CommissionAgreement { agreement_id, agent, platform, commission_rate, signed: false };
        self.agreements.insert(agreement_id, a.copy());
        a
    }

    /// Marks agreement `agreement_id` signed.
    ///
    /// Needs `signer`'s authorization.
    pub fn sign_agreement(&mut self, agreement_id: u64, signer: Address) -> (r: (bool, Vec<Effect>))
        requires
            old(self)@.contains_key(agreement_id),
        ensures
            r.0,
            final(self)@ == old(self)@.insert(
                agreement_id,
                CommissionAgreement { signed: true, ..old(self)@[agreement_id] },
            ),
            r.1@ == seq![Effect::RequireAuth { who: signer }],
    {
        let mut a = self.agreements.get(&agreement_id).unwrap().copy();
        a.signed = true;
        self.agreements.insert(agreement_id, a);
        let mut effects: Vec<Effect> = Vec::new();
        effects.push(Effect::RequireAuth { who: signer });
        (true, effects)
    }

    /// The agreement stored under `agreement_id`.
    pub fn get_agreement(&self, agreement_id: u64) -> (a: CommissionAgreement)
        requires
            self@.contains_key(agreement_id),
        ensures
            a == self@[agreement_id],
    {
        self.agreements.get(&agreement_id).unwrap().copy()
    }
}

// ── Multi-asset escrow ─────────────────────────────────────────────────────

/// An amount of one asset.
#[derive(Debug, PartialEq, Eq)]
pub struct AssetAmount {
    pub asset_id: String,
    pub amount: i128,
}

impl AssetAmount {
    /// A field-by-field copy.
    pub fn copy(&self) -> (r: AssetAmount)
        ensures
            r == *self,
    {
        AssetAmount { asset_id: self.asset_id.clone(), amount: self.amount }
    }
}

/// An escrow of several assets from a depositor for a beneficiary.
#[derive(Debug, PartialEq, Eq)]
pub struct MultiAssetEscrow {
    pub escrow_id: u64,
    pub depositor: Address,
    pub beneficiary: Address,
    pub assets: Vec<AssetAmount>,
    pub released: bool,
}

/// A copy of a list of asset amounts.
fn copy_assets(assets: &Vec<AssetAmount>) -> (r: Vec<AssetAmount>)
    ensures
        r@ == assets@,
{
    let mut r: Vec<AssetAmount> = Vec::new();
    let mut i: usize = 0;
    while i < assets.len()
        invariant
            i <= assets.len(),
            r@ == assets@.take(i as int),
        decreases assets.len() - i,
    {
        r.push(assets[i].copy());
        assert(assets@.take(i + 1) =~= assets@.take(i as int).push(assets@[i as int]));
        i = i + 1;
    }
    assert(assets@.take(assets.len() as int) =~= assets@);
    r
}

/// The content of a multi-asset escrow, with its asset list as a sequence.
pub struct MultiAssetEscrowView {
    pub escrow_id: u64,
    pub depositor: Address,
    pub beneficiary: Address,
    pub assets: Seq<AssetAmount>,
    pub released: bool,
}

impl View for MultiAssetEscrow {
    type V = MultiAssetEscrowView;

    open spec fn view(&self) -> MultiAssetEscrowView {
        MultiAssetEscrowView {
            escrow_id: self.escrow_id,
            depositor: self.depositor,
            beneficiary: self.beneficiary,
            assets: self.assets@,
            released: self.released,
        }
    }
}

impl MultiAssetEscrow {
    /// A field-by-field copy.
    pub fn copy(&self) -> (r: MultiAssetEscrow)
        ensures
            r@ == self@,
    {
        MultiAssetEscrow {
            escrow_id: self.escrow_id,
            depositor: self.depositor.clone(),
            beneficiary: self.beneficiary.clone(),
            assets: copy_assets(&self.assets),
            released: self.released,
        }
    }
}

/// The multi-asset escrow contract's persistent state: escrows numbered
/// from 0.
pub struct EscrowMultiAssetContract {
    escrows: Vec<MultiAssetEscrow>,
}

impl View for EscrowMultiAssetContract {
    type V = Seq<MultiAssetEscrowView>;

    /// The escrows: escrow `i` is at position `i`.
    closed spec fn view(&self) -> Seq<MultiAssetEscrowView> {
        self.escrows@.map_values(|e: MultiAssetEscrow| e@)
    }
}

impl EscrowMultiAssetContract {
    /// Each escrow carries its own number.
    pub open spec fn wf(&self) -> bool {
        forall|i: int| 0 <= i < self@.len() ==> (#[trigger] self@[i]).escrow_id == i
    }

    /// A contract with no escrow.
    pub fn new() -> (c: EscrowMultiAssetContract)
        ensures
            c@ == Seq::<MultiAssetEscrowView>::empty(),
            c.wf(),
    {
        let c = EscrowMultiAssetContract { escrows: Vec::new() };
        assert(c@ =~= Seq::<MultiAssetEscrowView>::empty());
        c
    }

    /// Records an unreleased escrow of `assets`, numbered after the last one.
    ///
    /// Needs `depositor`'s authorization.
    pub fn create_escrow(&mut self, depositor: Address, beneficiary: Address, assets: Vec<
        AssetAmount,
    >) -> (r: (u64, Vec<Effect>))
        requires
            old(self).wf(),
            old(self)@.len() < u64::MAX,
        ensures
            final(self).wf(),
            r.0 == old(self)@.len(),
            final(self)@ == old(self)@.push(
                MultiAssetEscrowView {
                    escrow_id: r.0,
                    depositor,
                    beneficiary,
                    assets: assets@,
                    released: false,
                },
            ),
            r.1@ == seq![Effect::RequireAuth { who: depositor }],
    {
        let escrow_id = self.escrows.len() as u64;
        let mut effects: Vec<Effect> = Vec::new();
        effects.push(Effect::RequireAuth { who: depositor.clone() });
        let ghost before = self@;
        self.escrows.push(
            MultiAssetEscrow { escrow_id, depositor, beneficiary, assets, released: false },
        );
        assert(self@ =~= before.push(self.escrows@.last()@));
        (escrow_id, effects)
    }

    /// Marks escrow `escrow_id` released.
    ///
    /// Needs `authority`'s authorization.
    pub fn release_escrow(&mut self, escrow_id: u64, authority: Address) -> (r: (bool, Vec<Effect>))
        requires
            old(self).wf(),
            escrow_id < old(self)@.len(),
        ensures
            final(self).wf(),
            r.0,
            final(self)@ == old(self)@.update(
                escrow_id as int,
                MultiAssetEscrowView { released: true, ..old(self)@[escrow_id as int] },
            ),
            r.1@ == seq![Effect::RequireAuth { who: authority }],
    {
        assert(escrow_id < self.escrows.len());
        let i = escrow_id as usize;
        let mut e = self.escrows[i].copy();
        e.released = true;
        let ghost before = self@;
        self.escrows.set(i, e);
        assert(self@ =~= before.update(escrow_id as int, self.escrows@[i as int]@));
        let mut effects: Vec<Effect> = Vec::new();
        effects.push(Effect::RequireAuth { who: authority });
        (true, effects)
    }

    /// The escrow numbered `escrow_id`.
    pub fn get_escrow(&self, escrow_id: u64) -> (e: MultiAssetEscrow)
        requires
            escrow_id < self@.len(),
        ensures
            e@ == self@[escrow_id as int],
    {
        assert(escrow_id < self.escrows.len());
        let i = escrow_id as usize;
        self.escrows[i].copy()
    }
}

} // verus!
