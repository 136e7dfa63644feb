//! Cross-chain bridge: transfers between supported chains, numbered from 1,
//! that start pending and are marked completed.
use vstd::prelude::*;
use std::collections::HashMap;

verus! {

broadcast use vstd::std_specs::hash::group_hash_axioms;

/// The error text for a transfer touching an unsupported chain.
pub open spec fn unsupported_chain_text() -> Seq<char> {
    "Unsupported chain"@
}

/// Where a bridge transfer stands.
#[derive(Debug, Clone, Copy, PartialEq, Eq, Structural)]
pub enum TxStatus {
    Pending,
    Completed,
    Failed,
}

/// A transfer of `amount` from `from_chain` to `to_chain`.
#[derive(Debug)]
pub struct BridgeTx {
    pub id: u64,
    pub from_chain: String,
    pub to_chain: String,
    pub amount: u64,
    pub sender: String,
    pub recipient: String,
    pub status: TxStatus,
}

impl BridgeTx {
    /// A field-by-field copy.
    pub fn copy(&self) -> (r: BridgeTx)
        ensures
            r == *self,
    {
        BridgeTx {
            id: self.id,
            from_chain: self.from_chain.clone(),
            to_chain: self.to_chain.clone(),
            amount: self.amount,
            sender: self.sender.clone(),
            recipient: self.recipient.clone(),
            status: self.status,
        }
    }
}

/// Whether `chain` is one of `chains`.
pub open spec fn supports(chains: Seq<String>, chain: Seq<char>) -> bool {
    exists|i: int| 0 <= i < chains.len() && (#[trigger] chains[i])@ == chain
}

/// The transfers by number, the number the next transfer will get, and the
/// chains the bridge serves.
#[derive(Debug, Default)]
pub struct CrossChainBridge {
    pub transactions: HashMap<u64, BridgeTx>,
    pub next_id: u64,
    pub supported_chains: Vec<String>,
}

/// Whether `chain` is one of `chains`.
fn contains_chain(chains: &Vec<String>, chain: &String) -> (b: bool)
    ensures
        b == supports(chains@, chain@),
{
    let mut i: usize = 0;
    while i < chains.len()
        invariant
            i <= chains.len(),
            forall|j: int| 0 <= j < i ==> (#[trigger] chains@[j])@ != chain@,
        decreases chains.len() - i,
    {
        if chains[i] == *chain {
            return true;
        }
        i = i + 1;
    }
    false
}

impl CrossChainBridge {
    /// A bridge serving `chains`, with no transfer; transfers are numbered
    /// from 1.
    pub fn new(chains: Vec<String>) -> (b: CrossChainBridge)
        ensures
            b.transactions@ == Map::<u64, BridgeTx>::empty(),
            b.next_id == 1,
            b.supported_chains@ == chains@,
    {
        CrossChainBridge { transactions: HashMap::new(), next_id: 1, supported_chains: chains }
    }

    /// Records a pending transfer between two supported chains under the
    /// next number and returns it.
    pub fn initiate(
        &mut self,
        from: String,
        to: String,
        amount: u64,
        sender: String,
        recipient: String,
    ) -> (r: Result<u64, String>)
        requires
            old(self).next_id < u64::MAX,
        ensures
            final(self).supported_chains@ == old(self).supported_chains@,
            !supports(old(self).supported_chains@, from@) || !supports(
                old(self).supported_chains@,
                to@,
            ) ==> (r matches Err(m) && m@ == unsupported_chain_text())
                && final(self).transactions@ == old(self).transactions@ && final(self).next_id
                == old(self).next_id,
            supports(old(self).supported_chains@, from@) && supports(
                old(self).supported_chains@,
                to@,
            ) ==> {
                let id = old(self).next_id;
                &&& r == Ok::<u64, String>(id)
                &&& final(self).next_id == id + 1
                &&& final(self).transactions@ == old(self).transactions@.insert(
                    id,
                    BridgeTx {
                        id,
                        from_chain: from,
                        to_chain: to,
                        amount,
                        sender,
                        recipient,
                        status: TxStatus::Pending,
                    },
                )
            },
    {
        if !contains_chain(&self.supported_chains, &from) || !contains_chain(
            &self.supported_chains,
            &to,
        ) {
            return Err("Unsupported chain".to_owned());
        }
        let id = self.next_id;
        self.transactions.insert(
            id,
            BridgeTx {
                id,
                from_chain: from,
                to_chain: to,
                amount,
                sender,
                recipient,
                status: TxStatus::Pending,
            },
        );
        self.next_id = self.next_id + 1;
        Ok(id)
    }

    /// Marks transfer `id` completed; false when there is no such transfer.
    pub fn complete(&mut self, id: u64) -> (found: bool)
        ensures
            found == old(self).transactions@.contains_key(id),
            final(self).next_id == old(self).next_id,
            final(self).supported_chains@ == old(self).supported_chains@,
            found ==> final(self).transactions@ == old(self).transactions@.insert(
                id,
                BridgeTx { status: TxStatus::Completed, ..old(self).transactions@[id] },
            ),
            !found ==> final(self).transactions@ == old(self).transactions@,
    {
        let mut tx = match self.transactions.get(&id) {
            Some(t) => t.copy(),
            None => return false,
        };
        tx.status = TxStatus::Completed;
        self.transactions.insert(id, tx);
        true
    }
}

/// A chain is supported exactly when it appears in the bridge's list, at
/// whatever position.
pub proof fn lemma_supported_iff_listed(chains: Seq<String>, chain: Seq<char>, i: int)
    ensures
        0 <= i < chains.len() && chains[i]@ == chain ==> supports(chains, chain),
        supports(chains, chain) ==> exists|j: int| 0 <= j < chains.len() && (#[trigger] chains[j])@ == chain,
{
}

} // verus!
