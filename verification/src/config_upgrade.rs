//! Upgrades of the platform configuration contract: anyone may propose a
//! new implementation, only the upgrade admin may approve it, and only an
//! approved proposal can be executed.
use vstd::prelude::*;

verus! {

/// The error text when someone other than the admin approves.
pub open spec fn only_admin_text() -> Seq<char> {
    "Only admin can approve upgrades"@
}

/// The error text when no proposal is pending.
pub open spec fn no_proposal_text() -> Seq<char> {
    "No pending upgrade proposal"@
}

/// The error text when the pending proposal is not approved.
pub open spec fn not_approved_text() -> Seq<char> {
    "Upgrade not approved"@
}

/// A proposed new implementation.
pub struct UpgradeProposal {
    pub proposal_id: u64,
    pub new_implementation: String,
    pub proposed_by: String,
    pub approved: bool,
}

/// The current implementation, the admin, and at most one pending proposal.
pub struct PlatformConfigUpgrade {
    pub current_implementation: String,
    pub upgrade_admin: String,
    pub pending_proposal: Option<UpgradeProposal>,
    pub next_proposal_id: u64,
}

impl PlatformConfigUpgrade {
    /// Runs `implementation` under `admin`, with nothing pending.
    pub fn new(implementation: &str, admin: &str) -> (u: PlatformConfigUpgrade)
        ensures
            u.current_implementation@ == implementation@,
            u.upgrade_admin@ == admin@,
            u.pending_proposal is None,
            u.next_proposal_id == 1,
    {
        PlatformConfigUpgrade {
            current_implementation: implementation.to_owned(),
            upgrade_admin: admin.to_owned(),
            pending_proposal: None,
            next_proposal_id: 1,
        }
    }

    /// Proposes `new_impl`, replacing any pending proposal, and returns the
    /// proposal's number.
    pub fn propose_upgrade(&mut self, proposer: &str, new_impl: &str) -> (id: u64)
        requires
            old(self).next_proposal_id < u64::MAX,
        ensures
            id == old(self).next_proposal_id,
            final(self).next_proposal_id == old(self).next_proposal_id + 1,
            final(self).current_implementation == old(self).current_implementation,
            final(self).upgrade_admin == old(self).upgrade_admin,
            final(self).pending_proposal matches Some(p) && p.proposal_id == id
                && p.new_implementation@ == new_impl@ && p.proposed_by@ == proposer@ && !p.approved,
    {
        let id = self.next_proposal_id;
        self.pending_proposal = Some(
            UpgradeProposal {
                proposal_id: id,
                new_implementation: new_impl.to_owned(),
                proposed_by: proposer.to_owned(),
                approved: false,
            },
        );
        self.next_proposal_id = self.next_proposal_id + 1;
        id
    }

    /// The admin approves the pending proposal.
    pub fn approve_upgrade(&mut self, admin: &str) -> (r: Result<(), &'static str>)
        ensures
            final(self).current_implementation == old(self).current_implementation,
            final(self).upgrade_admin == old(self).upgrade_admin,
            final(self).next_proposal_id == old(self).next_proposal_id,
            admin@ != old(self).upgrade_admin@ ==> (r matches Err(m) && m@ == only_admin_text())
                && final(self).pending_proposal == old(self).pending_proposal,
            admin@ == old(self).upgrade_admin@ && old(self).pending_proposal is None ==> (r matches Err(
                m,
            ) && m@ == no_proposal_text()) && final(self).pending_proposal is None,
            admin@ == old(self).upgrade_admin@ && old(self).pending_proposal is Some ==> {
                let p = old(self).pending_proposal->Some_0;
                &&& r is Ok
                &&& final(self).pending_proposal == Some(UpgradeProposal { approved: true, ..p })
            },
    {
        if !(admin.to_owned() == self.upgrade_admin) {
            return Err("Only admin can approve upgrades");
        }
        match &mut self.pending_proposal {
            Some(p) => {
                p.approved = true;
                Ok(())
            },
            None => Err("No pending upgrade proposal"),
        }
    }

    /// Switches to the approved pending implementation and returns it.
    pub fn execute_upgrade(&mut self) -> (r: Result<String, &'static str>)
        ensures
            final(self).upgrade_admin == old(self).upgrade_admin,
            final(self).next_proposal_id == old(self).next_proposal_id,
            old(self).pending_proposal is None ==> (r matches Err(m) && m@ == no_proposal_text())
                && final(self).current_implementation == old(self).current_implementation
                && final(self).pending_proposal is None,
            old(self).pending_proposal matches Some(p) && !p.approved ==> (r matches Err(m) && m@
                == not_approved_text()) && final(self).current_implementation == old(
                self,
            ).current_implementation && final(self).pending_proposal == old(self).pending_proposal,
            old(self).pending_proposal is Some && old(self).pending_proposal->Some_0.approved ==> {
                let p = old(self).pending_proposal->Some_0;
                &&& r == Ok::<String, &'static str>(p.new_implementation)
                &&& final(self).current_implementation == p.new_implementation
                &&& final(self).pending_proposal is None
            },
    {
        let next = match &self.pending_proposal {
            Some(p) => {
                if !p.approved {
                    return Err("Upgrade not approved");
                }
                p.new_implementation.clone()
            },
            None => return Err("No pending upgrade proposal"),
        };
        self.current_implementation = next;
        self.pending_proposal = None;
        Ok(self.current_implementation.clone())
    }
}

} // verus!
