//! Tips on top of an escrow payment: tips are queued per escrow and paid
//! out one at a time, oldest first.
use vstd::prelude::*;

verus! {

/// The error text when an escrow has no unpaid tip.
pub open spec fn no_pending_tip_text() -> Seq<char> {
    "No pending tip found for this escrow"@
}

/// A tip from `sender` to `recipient` on the escrow `escrow_id`.
pub struct TipPayment {
    pub escrow_id: u64,
    pub sender: String,
    pub recipient: String,
    pub amount: u64,
    pub paid: bool,
}

/// Whether `t` is an unpaid tip on `escrow_id`.
pub open spec fn pending_on(t: TipPayment, escrow_id: u64) -> bool {
    t.escrow_id == escrow_id && !t.paid
}

/// The queue of tips and the number the next tip will get.
pub struct EscrowTipManager {
    pub tips: Vec<TipPayment>,
    pub next_tip_id: u64,
}

impl EscrowTipManager {
    /// An empty queue; tips are numbered from 1.
    pub fn new() -> (m: EscrowTipManager)
        ensures
            m.tips@ == Seq::<TipPayment>::empty(),
            m.next_tip_id == 1,
    {
        EscrowTipManager { tips: Vec::new(), next_tip_id: 1 }
    }

    /// Queues an unpaid tip and returns its number.
    pub fn add_tip(&mut self, escrow_id: u64, sender: &str, recipient: &str, amount: u64) -> (id: u64)
        requires
            old(self).next_tip_id < u64::MAX,
        ensures
            id == old(self).next_tip_id,
            final(self).next_tip_id == old(self).next_tip_id + 1,
            final(self).tips@.len() == old(self).tips@.len() + 1,
            final(self).tips@.drop_last() == old(self).tips@,
            ({
                let t = final(self).tips@.last();
                &&& t.escrow_id == escrow_id
                &&& t.sender@ == sender@
                &&& t.recipient@ == recipient@
                &&& t.amount == amount
                &&& !t.paid
            }),
    {
        let id = self.next_tip_id;
        let ghost before = self.tips@;
        self.tips.push(
            TipPayment {
                escrow_id,
                sender: sender.to_owned(),
                recipient: recipient.to_owned(),
                amount,
                paid: false,
            },
        );
        assert(self.tips@.drop_last() =~= before);
        self.next_tip_id = self.next_tip_id + 1;
        id
    }

    /// Pays the oldest unpaid tip on `escrow_id` and returns its amount.
    pub fn pay_tip(&mut self, escrow_id: u64) -> (r: Result<u64, &'static str>)
        ensures
            final(self).next_tip_id == old(self).next_tip_id,
            (forall|i: int|
                0 <= i < old(self).tips@.len() ==> !pending_on(
                    #[trigger] old(self).tips@[i],
                    escrow_id,
                )) ==> (r matches Err(m) && m@ == no_pending_tip_text()) && final(self).tips@ == old(self).tips@,
            r is Ok ==> exists|i: int|
                {
                    &&& 0 <= i < old(self).tips@.len()
                    &&& pending_on(old(self).tips@[i], escrow_id)
                    &&& forall|j: int| 0 <= j < i ==> !pending_on(#[trigger] old(self).tips@[j], escrow_id)
                    &&& r == Ok::<u64, &'static str>(old(self).tips@[i].amount)
                    &&& final(self).tips@.len() == old(self).tips@.len()
                    &&& final(self).tips@[i].paid
                    &&& final(self).tips@[i].escrow_id == old(self).tips@[i].escrow_id
                    &&& final(self).tips@[i].sender == old(self).tips@[i].sender
                    &&& final(self).tips@[i].recipient == old(self).tips@[i].recipient
                    &&& final(self).tips@[i].amount == old(self).tips@[i].amount
                    &&& forall|j: int|
                        0 <= j < old(self).tips@.len() && j != i ==> #[trigger] final(self).tips@[j]
                            == old(self).tips@[j]
                },
            r is Err ==> forall|i: int|
                0 <= i < old(self).tips@.len() ==> !pending_on(#[trigger] old(self).tips@[i], escrow_id),
    {
        let mut i: usize = 0;
        while i < self.tips.len()
            invariant
                i <= self.tips.len(),
                self.tips@ == old(self).tips@,
                self.next_tip_id == old(self).next_tip_id,
                forall|j: int| 0 <= j < i ==> !pending_on(#[trigger] self.tips@[j], escrow_id),
            decreases self.tips.len() - i,
        {
            if self.tips[i].escrow_id == escrow_id && !self.tips[i].paid {
                let amount = self.tips[i].amount;
                let ghost before = self.tips@;
                self.tips[i].paid = true;
                assert(pending_on(before[i as int], escrow_id));
                return Ok(amount);
            }
            i = i + 1;
        }
        Err("No pending tip found for this escrow")
    }

    /// The unpaid tips, in the order they were queued.
    pub fn get_pending_tips(&self) -> (r: Vec<&TipPayment>)
        ensures
            r@.map_values(|t: &TipPayment| *t) == self.tips@.filter(|t: TipPayment| !t.paid),
    {
        let mut r: Vec<&TipPayment> = Vec::new();
        let mut i: usize = 0;
        while i < self.tips.len()
            invariant
                i <= self.tips.len(),
                r@.map_values(|t: &TipPayment| *t) == self.tips@.take(i as int).filter(
                    |t: TipPayment| !t.paid,
                ),
            decreases self.tips.len() - i,
        {
            proof {
                reveal_with_fuel(Seq::<_>::filter, 1);
                assert(self.tips@.take(i + 1).drop_last() =~= self.tips@.take(i as int));
            }
            let ghost before = r@;
            if !self.tips[i].paid {
                r.push(&self.tips[i]);
                assert(r@.map_values(|t: &TipPayment| *t) =~= before.map_values(|t: &TipPayment| *t).push(self.tips@[i as int]));
            }
            i = i + 1;
        }
        assert(self.tips@.take(self.tips.len() as int) =~= self.tips@);
        r
    }
}

impl Default for EscrowTipManager {
    fn default() -> (m: EscrowTipManager)
        ensures
            m.tips@ == Seq::<TipPayment>::empty(),
            m.next_tip_id == 1,
    {
        Self::new()
    }
}

/// A tip is pending on an escrow exactly when it was queued on that escrow
/// and is not paid yet, for every escrow number, 0 included.
pub proof fn lemma_pending_iff_unpaid_on(t: TipPayment, escrow_id: u64)
    ensures
        pending_on(t, escrow_id) <==> (t.escrow_id == escrow_id && !t.paid),
{
}

} // verus!
