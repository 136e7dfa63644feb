//! Creator grants: creators submit grant requests, numbered from 1, which
//! the platform approves.
use vstd::prelude::*;
use std::collections::HashMap;

verus! {

broadcast use vstd::std_specs::hash::group_hash_axioms;

/// A grant request of `amount` by the creator `creator_id`.
#[derive(Debug)]
pub struct Grant {
    pub id: u64,
    pub creator_id: String,
    pub amount: u64,
    pub description: String,
    pub approved: bool,
}

impl Grant {
    /// A field-by-field copy.
    pub fn copy(&self) -> (r: Grant)
        ensures
            r == *self,
    {
        Grant {
            id: self.id,
            creator_id: self.creator_id.clone(),
            amount: self.amount,
            description: self.description.clone(),
            approved: self.approved,
        }
    }
}

/// The grants by number, and the number the next grant will get.
#[derive(Debug, Default)]
pub struct CreatorGrantsSystem {
    pub grants: HashMap<u64, Grant>,
    pub next_id: u64,
}

impl CreatorGrantsSystem {
    /// A system with no grant; grants are numbered from 1.
    pub fn new() -> (g: CreatorGrantsSystem)
        ensures
            g.grants@ == Map::<u64, Grant>::empty(),
            g.next_id == 1,
    {
        CreatorGrantsSystem { grants: HashMap::new(), next_id: 1 }
    }

    /// Records an unapproved grant request under the next number and
    /// returns it.
    pub fn submit_grant(&mut self, creator_id: String, amount: u64, description: String) -> (id:
        u64)
        requires
            old(self).next_id < u64::MAX,
        ensures
            id == old(self).next_id,
            final(self).next_id == old(self).next_id + 1,
            final(self).grants@ == old(self).grants@.insert(
                id,
                Grant { id, creator_id, amount, description, approved: false },
            ),
    {
        let id = self.next_id;
        let grant = Grant { id, creator_id, amount, description, approved: false };
        self.grants.insert(id, grant);
        self.next_id = self.next_id + 1;
        id
    }

    /// Approves grant `grant_id`; false when there is no such grant.
    pub fn approve_grant(&mut self, grant_id: u64) -> (found: bool)
        ensures
            found == old(self).grants@.contains_key(grant_id),
            final(self).next_id == old(self).next_id,
            found ==> final(self).grants@ == old(self).grants@.insert(
                grant_id,
                Grant { approved: true, ..old(self).grants@[grant_id] },
            ),
            !found ==> final(self).grants@ == old(self).grants@,
    {
        let mut grant = match self.grants.get(&grant_id) {
            Some(g) => g.copy(),
            None => return false,
        };
        grant.approved = true;
        self.grants.insert(grant_id, grant);
        true
    }

    /// The grant numbered `grant_id`, if any.
    pub fn get_grant(&self, grant_id: u64) -> (r: Option<&Grant>)
        ensures
            self.grants@.contains_key(grant_id) ==> (r matches Some(g) && *g
                == self.grants@[grant_id]),
            !self.grants@.contains_key(grant_id) ==> r is None,
    {
        self.grants.get(&grant_id)
    }
}

} // verus!
