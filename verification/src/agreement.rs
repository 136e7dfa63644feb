//! The commission agreement contract: a client proposes an agreement, the
//! artist accepts or rejects it, the artist proposes milestones within the
//! budget, and the client approves them; approving the last pending
//! milestone completes the agreement.
use vstd::prelude::*;
use vstd::hash_map::StringHashMap;
use crate::host::{demand_auth, refused, Address, Effect, Event};

verus! {

/// Where an agreement stands.
#[derive(Clone, Copy, Debug, PartialEq, Eq, Structural)]
pub enum AgreementStatus {
    Pending,
    Active,
    Completed,
    Cancelled,
    Disputed,
}

/// Where a milestone stands.
#[derive(Clone, Copy, Debug, PartialEq, Eq, Structural)]
pub enum MilestoneStatus {
    Pending,
    Approved,
}

/// Why an agreement operation was refused.
#[derive(Clone, Copy, Debug, PartialEq, Eq, Structural)]
pub enum AgreementError {
    AlreadyExists,
    NotFound,
    InvalidStatus,
    Unauthorized,
    InvalidAmount,
    DeadlineInPast,
    MilestoneBudgetExceeded,
    NotAllMilestonesApproved,
    ArithmeticOverflow,
}

/// The contract error code of each variant.
pub open spec fn agreement_error_code(e: AgreementError) -> u32 {
    match e {
        AgreementError::AlreadyExists => 1,
        AgreementError::NotFound => 2,
        AgreementError::InvalidStatus => 3,
        AgreementError::Unauthorized => 4,
        AgreementError::InvalidAmount => 5,
        AgreementError::DeadlineInPast => 6,
        AgreementError::MilestoneBudgetExceeded => 7,
        AgreementError::NotAllMilestonesApproved => 8,
        AgreementError::ArithmeticOverflow => 9,
    }
}

/// The human-readable message of each variant.
pub open spec fn agreement_error_message(e: AgreementError) -> Seq<char> {
    match e {
        AgreementError::AlreadyExists => "agreement already exists"@,
        AgreementError::NotFound => "agreement not found"@,
        AgreementError::InvalidStatus => "invalid status"@,
        AgreementError::Unauthorized => "unauthorized"@,
        AgreementError::InvalidAmount => "invalid amount"@,
        AgreementError::DeadlineInPast => "deadline in past"@,
        AgreementError::MilestoneBudgetExceeded => "milestone budget exceeded"@,
        AgreementError::NotAllMilestonesApproved => "not all milestones approved"@,
        AgreementError::ArithmeticOverflow => "arithmetic operation would overflow"@,
    }
}

/// The short remediation tag of each variant.
pub open spec fn agreement_error_suggestion(e: AgreementError) -> Seq<char> {
    match e {
        AgreementError::AlreadyExists => "DUP"@,
        AgreementError::NotFound => "NOT_FOUND"@,
        AgreementError::InvalidStatus => "BAD_STATUS"@,
        AgreementError::Unauthorized => "AUTH"@,
        AgreementError::InvalidAmount => "BAD_AMT"@,
        AgreementError::DeadlineInPast => "PAST_DDL"@,
        AgreementError::MilestoneBudgetExceeded => "OVER_BUD"@,
        AgreementError::NotAllMilestonesApproved => "NOT_ALL"@,
        AgreementError::ArithmeticOverflow => "OVERFL"@,
    }
}

impl AgreementError {
    /// The contract error code (1 to 9, in declaration order).
    pub fn code(&self) -> (c: u32)
        ensures
            c == agreement_error_code(*self),
    {
        match self {
            AgreementError::AlreadyExists => 1,
            AgreementError::NotFound => 2,
            AgreementError::InvalidStatus => 3,
            AgreementError::Unauthorized => 4,
            AgreementError::InvalidAmount => 5,
            AgreementError::DeadlineInPast => 6,
            AgreementError::MilestoneBudgetExceeded => 7,
            AgreementError::NotAllMilestonesApproved => 8,
            AgreementError::ArithmeticOverflow => 9,
        }
    }

    /// The message shown to users for this error.
    pub fn message(&self) -> (m: &'static str)
        ensures
            m@ == agreement_error_message(*self),
    {
        match self {
            AgreementError::AlreadyExists => "agreement already exists",
            AgreementError::NotFound => "agreement not found",
            AgreementError::InvalidStatus => "invalid status",
            AgreementError::Unauthorized => "unauthorized",
            AgreementError::InvalidAmount => "invalid amount",
            AgreementError::DeadlineInPast => "deadline in past",
            AgreementError::MilestoneBudgetExceeded => "milestone budget exceeded",
            AgreementError::NotAllMilestonesApproved => "not all milestones approved",
            AgreementError::ArithmeticOverflow => "arithmetic operation would overflow",
        }
    }
}

/// The remediation tag that clients show next to `error`.
pub fn get_suggestion(error: AgreementError) -> (s: &'static str)
    ensures
        s@ == agreement_error_suggestion(error),
{
    match error {
        AgreementError::AlreadyExists => "DUP",
        AgreementError::NotFound => "NOT_FOUND",
        AgreementError::InvalidStatus => "BAD_STATUS",
        AgreementError::Unauthorized => "AUTH",
        AgreementError::InvalidAmount => "BAD_AMT",
        AgreementError::DeadlineInPast => "PAST_DDL",
        AgreementError::MilestoneBudgetExceeded => "OVER_BUD",
        AgreementError::NotAllMilestonesApproved => "NOT_ALL",
        AgreementError::ArithmeticOverflow => "OVERFL",
    }
}

/// One agreement, stored under its commission id.
#[derive(Debug, PartialEq, Eq)]
pub struct AgreementRecord {
    pub commission_id: String,
    pub client: Address,
    pub artist: Address,
    pub title: String,
    pub budget_usdc: i128,
    pub deadline_ledger: u32,
    pub status: AgreementStatus,
    pub created_ledger: u32,
}

impl AgreementRecord {
    /// A field-by-field copy.
    pub fn copy(&self) -> (r: AgreementRecord)
        ensures
            r == *self,
    {
        AgreementRecord {
            commission_id: self.commission_id.clone(),
            client: self.client.clone(),
            artist: self.artist.clone(),
            title: self.title.clone(),
            budget_usdc: self.budget_usdc,
            deadline_ledger: self.deadline_ledger,
            status: self.status,
            created_ledger: self.created_ledger,
        }
    }
}

/// One milestone of an agreement.
#[derive(Debug, PartialEq, Eq)]
pub struct MilestoneRecord {
    pub milestone_id: String,
    pub commission_id: String,
    pub title: String,
    pub amount_usdc: i128,
    pub status: MilestoneStatus,
}

impl MilestoneRecord {
    /// A field-by-field copy.
    pub fn copy(&self) -> (r: MilestoneRecord)
        ensures
            r == *self,
    {
        MilestoneRecord {
            milestone_id: self.milestone_id.clone(),
            commission_id: self.commission_id.clone(),
            title: self.title.clone(),
            amount_usdc: self.amount_usdc,
            status: self.status,
        }
    }
}

/// The sum of the milestone amounts in `ms`.
pub open spec fn total_amount(ms: Seq<MilestoneRecord>) -> int
    decreases ms.len(),
{
    if ms.len() == 0 {
        0
    } else {
        total_amount(ms.drop_last()) + ms.last().amount_usdc
    }
}

/// The position of the last milestone in `ms` with id `id`, or -1.
pub open spec fn last_index_of(ms: Seq<MilestoneRecord>, id: Seq<char>) -> int
    decreases ms.len(),
{
    if ms.len() == 0 {
        -1
    } else if ms.last().milestone_id@ == id {
        ms.len() - 1
    } else {
        last_index_of(ms.drop_last(), id)
    }
}

/// Whether approving milestone `id` completes an agreement whose milestone
/// list is `ms`: the list is not empty and every other milestone in it is
/// already approved.
pub open spec fn approval_completes(ms: Seq<MilestoneRecord>, id: Seq<char>) -> bool {
    ms.len() > 0 && forall|j: int|
        0 <= j < ms.len() ==> (#[trigger] ms[j]).status == MilestoneStatus::Approved
            || ms[j].milestone_id@ == id
}

/// Milestone amounts are positive and add up to at most the budget.
pub open spec fn milestones_fit(ms: Seq<MilestoneRecord>, budget: i128) -> bool {
    &&& forall|j: int| 0 <= j < ms.len() ==> (#[trigger] ms[j]).amount_usdc > 0
    &&& total_amount(ms) <= budget
}

proof fn lemma_total_push(ms: Seq<MilestoneRecord>, m: MilestoneRecord)
    ensures
        total_amount(ms.push(m)) == total_amount(ms) + m.amount_usdc,
{
    assert(ms.push(m).drop_last() =~= ms);
}

proof fn lemma_total_prefix_bounded(ms: Seq<MilestoneRecord>, i: int)
    requires
        0 <= i <= ms.len(),
        forall|j: int| 0 <= j < ms.len() ==> (#[trigger] ms[j]).amount_usdc > 0,
    ensures
        0 <= total_amount(ms.take(i)) <= total_amount(ms),
    decreases ms.len(),
{
    if i == ms.len() {
        assert(ms.take(i) =~= ms);
        if ms.len() > 0 {
            lemma_total_prefix_bounded(ms.drop_last(), i - 1);
            assert(ms.drop_last().take(i - 1) =~= ms.drop_last());
        }
    } else {
        lemma_total_prefix_bounded(ms.drop_last(), i);
        assert(ms.drop_last().take(i) =~= ms.take(i));
    }
}

proof fn lemma_total_update_status(ms: Seq<MilestoneRecord>, i: int, m: MilestoneRecord)
    requires
        0 <= i < ms.len(),
        m.amount_usdc == ms[i].amount_usdc,
    ensures
        total_amount(ms.update(i, m)) == total_amount(ms),
    decreases ms.len(),
{
    if i < ms.len() - 1 {
        lemma_total_update_status(ms.drop_last(), i, m);
        assert(ms.update(i, m).drop_last() =~= ms.drop_last().update(i, m));
    } else {
        assert(ms.update(i, m).drop_last() =~= ms.drop_last());
    }
}

proof fn lemma_last_index_bounds(ms: Seq<MilestoneRecord>, id: Seq<char>)
    ensures
        -1 <= last_index_of(ms, id) < ms.len(),
        last_index_of(ms, id) >= 0 ==> ms[last_index_of(ms, id)].milestone_id@ == id,
    decreases ms.len(),
{
    if ms.len() > 0 && ms.last().milestone_id@ != id {
        lemma_last_index_bounds(ms.drop_last(), id);
    }
}

/// A copy of a milestone list.
fn copy_milestones(ms: &Vec<MilestoneRecord>) -> (r: Vec<MilestoneRecord>)
    ensures
        r@ == ms@,
{
    let mut r: Vec<MilestoneRecord> = Vec::new();
    let mut i: usize = 0;
    while i < ms.len()
        invariant
            i <= ms.len(),
            r@ == ms@.take(i as int),
        decreases ms.len() - i,
    {
        r.push(ms[i].copy());
        assert(ms@.take(i + 1) =~= ms@.take(i as int).push(ms@[i as int]));
        i = i + 1;
    }
    assert(ms@.take(ms.len() as int) =~= ms@);
    r
}

/// The commission agreement contract's persistent state: agreements and
/// their milestone lists, by commission id.
pub struct CommissionAgreementContract {
    agreements: StringHashMap<AgreementRecord>,
    milestones: StringHashMap<Vec<MilestoneRecord>>,
}

impl CommissionAgreementContract {
    /// The stored agreements, by commission id.
    pub closed spec fn agreements(&self) -> Map<Seq<char>, AgreementRecord> {
        self.agreements@
    }

    /// The stored milestone lists, by commission id.
    pub closed spec fn milestones(&self) -> Map<Seq<char>, Seq<MilestoneRecord>> {
        self.milestones@.map_values(|v: Vec<MilestoneRecord>| v@)
    }

    /// Every agreement is stored under its own commission id and has a
    /// milestone list, whose amounts are positive and fit within its budget.
    pub open spec fn wf(&self) -> bool {
        forall|k: Seq<char>| #[trigger]
            self.agreements().contains_key(k) ==> {
                &&& self.agreements()[k].commission_id@ == k
                &&& self.milestones().contains_key(k)
                &&& milestones_fit(self.milestones()[k], self.agreements()[k].budget_usdc)
            }
    }

    /// A contract with no agreements.
    pub fn new() -> (c: CommissionAgreementContract)
        ensures
            c.agreements() == Map::<Seq<char>, AgreementRecord>::empty(),
            c.milestones() == Map::<Seq<char>, Seq<MilestoneRecord>>::empty(),
            c.wf(),
    {
        let c = CommissionAgreementContract {
            agreements: StringHashMap::new(),
            milestones: StringHashMap::new(),
        };
        assert(c.milestones() =~= Map::<Seq<char>, Seq<MilestoneRecord>>::empty());
        c
    }

    /// Records a new pending agreement between `client` and `artist` for
    /// `budget_usdc`, due by `deadline_ledger`; `ledger` is the current
    /// ledger sequence.
    ///
    /// Needs `client`'s authorization, demanded before anything is checked:
    /// a refusal still carries the demand.
    pub fn create_agreement(
        &mut self,
        commission_id: String,
        client: Address,
        artist: Address,
        title: String,
        budget_usdc: i128,
        deadline_ledger: u32,
        ledger: u32,
    ) -> (r: Result<Vec<Effect>, (Vec<Effect>, AgreementError)>)
        requires
            old(self).wf(),
        ensures
            final(self).wf(),
            budget_usdc <= 0 ==> refused(
                r,
                seq![Effect::RequireAuth { who: client }],
                AgreementError::InvalidAmount,
            ) && *final(self) == *old(self),
            budget_usdc > 0 && deadline_ledger <= ledger ==> refused(
                r,
                seq![Effect::RequireAuth { who: client }],
                AgreementError::DeadlineInPast,
            ) && *final(self) == *old(self),
            budget_usdc > 0 && deadline_ledger > ledger && old(self).agreements().contains_key(
                commission_id@,
            ) ==> refused(
                r,
                seq![Effect::RequireAuth { who: client }],
                AgreementError::AlreadyExists,
            )
                && *final(self) == *old(self),
            budget_usdc > 0 && deadline_ledger > ledger && !old(self).agreements().contains_key(
                commission_id@,
            ) ==> {
                &&& r is Ok
                &&& final(self).agreements() == old(self).agreements().insert(
                    commission_id@,
                    AgreementRecord {
                        commission_id,
                        client,
                        artist,
                        title,
                        budget_usdc,
                        deadline_ledger,
                        status: AgreementStatus::Pending,
                        created_ledger: ledger,
                    },
                )
                &&& final(self).milestones() == old(self).milestones().insert(
                    commission_id@,
                    Seq::<MilestoneRecord>::empty(),
                )
                &&& r->Ok_0@ == seq![
                    Effect::RequireAuth { who: client },
                    Effect::Emit {
                        event: Event::AgreementCreated {
                            commission_id,
                            client,
                            artist,
                            budget_usdc,
                        },
                    },
                ]
            },
    {
        if budget_usdc <= 0 {
            return Err((demand_auth(&client), AgreementError::InvalidAmount));
        }
        if deadline_ledger <= ledger {
            return Err((demand_auth(&client), AgreementError::DeadlineInPast));
        }
        if self.agreements.contains_key(commission_id.as_str()) {
            return Err((demand_auth(&client), AgreementError::AlreadyExists));
        }
        let record = AgreementRecord {
            commission_id: commission_id.clone(),
            client: client.clone(),
            artist: artist.clone(),
            title,
            budget_usdc,
            deadline_ledger,
            status: AgreementStatus::Pending,
            created_ledger: ledger,
        };
        self.agreements.insert(commission_id.clone(), record);
        self.milestones.insert(commission_id.clone(), Vec::new());
        proof {
            assert(self.milestones() =~= old(self).milestones().insert(
                commission_id@,
                Seq::<MilestoneRecord>::empty(),
            ));
            assert(total_amount(Seq::<MilestoneRecord>::empty()) == 0);
        }
        let mut effects: Vec<Effect> = Vec::new();
        effects.push(Effect::RequireAuth { who: client.clone() });
        effects.push(
            Effect::Emit {
                event: Event::AgreementCreated { commission_id, client, artist, budget_usdc },
            },
        );
        Ok(effects)
    }

    /// Moves a pending agreement to `to`, publishing `event`; the shared body
    /// of accepting and rejecting.
    fn settle_pending(&mut self, commission_id: &str, to: AgreementStatus, event: Event) -> (r:
        Result<Vec<Effect>, (Vec<Effect>, AgreementError)>)
        requires
            old(self).wf(),
        ensures
            final(self).wf(),
            !old(self).agreements().contains_key(commission_id@) ==> refused(
                r,
                Seq::<Effect>::empty(),
                AgreementError::NotFound,
            ) && *final(self) == *old(self),
            old(self).agreements().contains_key(commission_id@) && old(self).agreements()[commission_id@].status
                != AgreementStatus::Pending ==> refused(
                    r,
                    seq![Effect::RequireAuth { who: old(self).agreements()[commission_id@].artist }],
                    AgreementError::InvalidStatus,
                ) && *final(self) == *old(self),
            old(self).agreements().contains_key(commission_id@) && old(self).agreements()[commission_id@].status
                == AgreementStatus::Pending ==> {
                let rec = old(self).agreements()[commission_id@];
                &&& r is Ok
                &&& final(self).agreements() == old(self).agreements().insert(
                    commission_id@,
                    AgreementRecord { status: to, ..rec },
                )
                &&& final(self).milestones() == old(self).milestones()
                &&& r->Ok_0@ == seq![
                    Effect::RequireAuth { who: rec.artist },
                    Effect::Emit { event },
                ]
            },
    {
        let mut rec = match self.agreements.get(commission_id) {
            Some(rec) => rec.copy(),
            None => return Err((Vec::new(), AgreementError::NotFound)),
        };
        if rec.status != AgreementStatus::Pending {
            return Err((demand_auth(&rec.artist), AgreementError::InvalidStatus));
        }
        let artist = rec.artist.clone();
        rec.status = to;
        self.agreements.insert(commission_id.to_owned(), rec);
        let mut effects: Vec<Effect> = Vec::new();
        effects.push(Effect::RequireAuth { who: artist });
        effects.push(Effect::Emit { event });
        Ok(effects)
    }

    /// The artist accepts a pending agreement, which becomes active.
    ///
    /// Needs the artist's authorization, demanded once the agreement is
    /// found: every later refusal still carries the demand.
    pub fn accept_agreement(&mut self, commission_id: &str) -> (r: Result<Vec<Effect>, (Vec<Effect>, AgreementError)>)
        requires
            old(self).wf(),
        ensures
            final(self).wf(),
            !old(self).agreements().contains_key(commission_id@) ==> refused(
                r,
                Seq::<Effect>::empty(),
                AgreementError::NotFound,
            ) && *final(self) == *old(self),
            old(self).agreements().contains_key(commission_id@) && old(self).agreements()[commission_id@].status
                != AgreementStatus::Pending ==> refused(
                    r,
                    seq![Effect::RequireAuth { who: old(self).agreements()[commission_id@].artist }],
                    AgreementError::InvalidStatus,
                ) && *final(self) == *old(self),
            old(self).agreements().contains_key(commission_id@) && old(self).agreements()[commission_id@].status
                == AgreementStatus::Pending ==> {
                let rec = old(self).agreements()[commission_id@];
                &&& r is Ok
                &&& final(self).agreements() == old(self).agreements().insert(
                    commission_id@,
                    AgreementRecord { status: AgreementStatus::Active, ..rec },
                )
                &&& final(self).milestones() == old(self).milestones()
                &&& r->Ok_0@.len() == 2
                &&& r->Ok_0@[0] == Effect::RequireAuth { who: rec.artist }
                &&& (r->Ok_0@[1] matches Effect::Emit {
                    event: Event::AgreementAccepted { commission_id: id },
                } && id@ == commission_id@)
            },
    {
        let event = Event::AgreementAccepted { commission_id: commission_id.to_owned() };
        self.settle_pending(commission_id, AgreementStatus::Active, event)
    }

    /// The artist rejects a pending agreement, which is cancelled.
    ///
    /// Needs the artist's authorization, demanded once the agreement is
    /// found: every later refusal still carries the demand.
    pub fn reject_agreement(&mut self, commission_id: &str, reason: String) -> (r: Result<Vec<Effect>, (Vec<Effect>, AgreementError)>)
        requires
            old(self).wf(),
        ensures
            final(self).wf(),
            !old(self).agreements().contains_key(commission_id@) ==> refused(
                r,
                Seq::<Effect>::empty(),
                AgreementError::NotFound,
            ) && *final(self) == *old(self),
            old(self).agreements().contains_key(commission_id@) && old(self).agreements()[commission_id@].status
                != AgreementStatus::Pending ==> refused(
                    r,
                    seq![Effect::RequireAuth { who: old(self).agreements()[commission_id@].artist }],
                    AgreementError::InvalidStatus,
                ) && *final(self) == *old(self),
            old(self).agreements().contains_key(commission_id@) && old(self).agreements()[commission_id@].status
                == AgreementStatus::Pending ==> {
                let rec = old(self).agreements()[commission_id@];
                &&& r is Ok
                &&& final(self).agreements() == old(self).agreements().insert(
                    commission_id@,
                    AgreementRecord { status: AgreementStatus::Cancelled, ..rec },
                )
                &&& final(self).milestones() == old(self).milestones()
                &&& r->Ok_0@.len() == 2
                &&& r->Ok_0@[0] == Effect::RequireAuth { who: rec.artist }
                &&& (r->Ok_0@[1] matches Effect::Emit {
                    event: Event::AgreementRejected { commission_id: id, reason: why },
                } && id@ == commission_id@ && why == reason)
            },
    {
        let event = Event::AgreementRejected { commission_id: commission_id.to_owned(), reason };
        self.settle_pending(commission_id, AgreementStatus::Cancelled, event)
    }

    /// Sum of the amounts of `ms`, computed without overflow since the list
    /// fits within a budget.
    fn total_of(ms: &Vec<MilestoneRecord>, budget: i128) -> (t: i128)
        requires
            milestones_fit(ms@, budget),
        ensures
            t == total_amount(ms@),
    {
        let mut total: i128 = 0;
        let mut i: usize = 0;
        while i < ms.len()
            invariant
                i <= ms.len(),
                milestones_fit(ms@, budget),
                total == total_amount(ms@.take(i as int)),
            decreases ms.len() - i,
        {
            proof {
                assert(ms@.take(i + 1).drop_last() =~= ms@.take(i as int));
                lemma_total_prefix_bounded(ms@, i + 1);
            }
            total = total + ms[i].amount_usdc;
            i = i + 1;
        }
        assert(ms@.take(ms.len() as int) =~= ms@);
        total
    }

    /// The artist proposes a milestone worth `amount_usdc` on an active
    /// agreement; the milestones together may not exceed the budget.
    ///
    /// Needs the artist's authorization, demanded once the agreement is
    /// found: every later refusal still carries the demand.
    pub fn propose_milestone(
        &mut self,
        commission_id: &str,
        milestone_id: String,
        title: String,
        amount_usdc: i128,
    ) -> (r: Result<Vec<Effect>, (Vec<Effect>, AgreementError)>)
        requires
            old(self).wf(),
        ensures
            final(self).wf(),
            ({
                let agreements = old(self).agreements();
                let found = agreements.contains_key(commission_id@);
                let rec = agreements[commission_id@];
                let ms = old(self).milestones()[commission_id@];
                &&& !found ==> refused(r, Seq::<Effect>::empty(), AgreementError::NotFound)
                    && *final(self) == *old(self)
                &&& found && rec.status != AgreementStatus::Active ==> refused(
                    r,
                    seq![Effect::RequireAuth { who: rec.artist }],
                    AgreementError::InvalidStatus,
                ) && *final(self) == *old(self)
                &&& found && rec.status == AgreementStatus::Active && amount_usdc <= 0 ==> refused(
                    r,
                    seq![Effect::RequireAuth { who: rec.artist }],
                    AgreementError::InvalidAmount,
                )
                    && *final(self) == *old(self)
                &&& found && rec.status == AgreementStatus::Active && amount_usdc > 0
                    && total_amount(ms) + amount_usdc > rec.budget_usdc ==> refused(
                        r,
                        seq![Effect::RequireAuth { who: rec.artist }],
                        AgreementError::MilestoneBudgetExceeded,
                    ) && *final(self) == *old(self)
                &&& found && rec.status == AgreementStatus::Active && amount_usdc > 0
                    && total_amount(ms) + amount_usdc <= rec.budget_usdc ==> {
                    &&& r is Ok
                    &&& final(self).agreements() == agreements
                    &&& final(self).milestones() == old(self).milestones().insert(
                        commission_id@,
                        ms.push(
                            MilestoneRecord {
                                milestone_id,
                                commission_id: rec.commission_id,
                                title,
                                amount_usdc,
                                status: MilestoneStatus::Pending,
                            },
                        ),
                    )
                    &&& r->Ok_0@ == seq![
                        Effect::RequireAuth { who: rec.artist },
                        Effect::Emit {
                            event: Event::MilestoneProposed {
                                commission_id: rec.commission_id,
                                milestone_id,
                                amount_usdc,
                            },
                        },
                    ]
                }
            }),
    {
        let rec = match self.agreements.get(commission_id) {
            Some(rec) => rec.copy(),
            None => return Err((Vec::new(), AgreementError::NotFound)),
        };
        if rec.status != AgreementStatus::Active {
            return Err((demand_auth(&rec.artist), AgreementError::InvalidStatus));
        }
        if amount_usdc <= 0 {
            return Err((demand_auth(&rec.artist), AgreementError::InvalidAmount));
        }
        proof {
            assert(self.agreements().contains_key(commission_id@));
        }
        let mut ms = copy_milestones(self.milestones.get(commission_id).unwrap());
        let total = Self::total_of(&ms, rec.budget_usdc);
        proof {
            lemma_total_prefix_bounded(ms@, ms@.len() as int);
            assert(ms@.take(ms@.len() as int) =~= ms@);
        }
        if amount_usdc > rec.budget_usdc - total {
            return Err((demand_auth(&rec.artist), AgreementError::MilestoneBudgetExceeded));
        }
        let milestone = MilestoneRecord {
            milestone_id: milestone_id.clone(),
            commission_id: rec.commission_id.clone(),
            title,
            amount_usdc,
            status: MilestoneStatus::Pending,
        };
        let ghost old_ms = ms@;
        ms.push(milestone);
        proof {
            lemma_total_push(old_ms, ms@.last());
            assert(forall|j: int| 0 <= j < ms@.len() ==> (#[trigger] ms@[j]).amount_usdc > 0) by {
                assert(forall|j: int| 0 <= j < old_ms.len() ==> ms@[j] == old_ms[j]);
            }
        }
        self.milestones.insert(commission_id.to_owned(), ms);
        proof {
            assert(self.milestones() =~= old(self).milestones().insert(
                commission_id@,
                old_ms.push(ms@.last()),
            ));
        }
        let mut effects: Vec<Effect> = Vec::new();
        effects.push(Effect::RequireAuth { who: rec.artist.clone() });
        effects.push(
            Effect::Emit {
                event: Event::MilestoneProposed {
                    commission_id: rec.commission_id,
                    milestone_id,
                    amount_usdc,
                },
            },
        );
        Ok(effects)
    }

    /// The position of the last milestone with id `milestone_id`.
    fn find_milestone(ms: &Vec<MilestoneRecord>, milestone_id: &str) -> (r: Option<usize>)
        ensures
            r is None <==> last_index_of(ms@, milestone_id@) == -1,
            r matches Some(i) ==> i == last_index_of(ms@, milestone_id@),
    {
        let target = milestone_id.to_owned();
        let mut found: Option<usize> = None;
        let mut i: usize = 0;
        while i < ms.len()
            invariant
                i <= ms.len(),
                target@ == milestone_id@,
                found is None <==> last_index_of(ms@.take(i as int), milestone_id@) == -1,
                found matches Some(k) ==> k == last_index_of(ms@.take(i as int), milestone_id@),
            decreases ms.len() - i,
        {
            proof {
                assert(ms@.take(i + 1).drop_last() =~= ms@.take(i as int));
                assert(ms@.take(i + 1).last() == ms@[i as int]);
                lemma_last_index_bounds(ms@.take(i as int), milestone_id@);
            }
            if ms[i].milestone_id == target {
                found = Some(i);
            }
            i = i + 1;
        }
        assert(ms@.take(ms.len() as int) =~= ms@);
        found
    }

    /// Whether approving `milestone_id` completes the agreement.
    fn completes(ms: &Vec<MilestoneRecord>, milestone_id: &str) -> (b: bool)
        ensures
            b == approval_completes(ms@, milestone_id@),
    {
        if ms.len() == 0 {
            return false;
        }
        let target = milestone_id.to_owned();
        let mut i: usize = 0;
        while i < ms.len()
            invariant
                i <= ms.len(),
                target@ == milestone_id@,
                forall|j: int|
                    0 <= j < i ==> (#[trigger] ms@[j]).status == MilestoneStatus::Approved
                        || ms@[j].milestone_id@ == milestone_id@,
            decreases ms.len() - i,
        {
            if ms[i].status != MilestoneStatus::Approved && !(ms[i].milestone_id == target) {
                return false;
            }
            i = i + 1;
        }
        true
    }

    /// The client approves a pending milestone of an active agreement. When
    /// every other milestone is already approved, the agreement completes.
    ///
    /// Needs the client's authorization, demanded once the agreement is
    /// found: every later refusal still carries the demand.
    pub fn approve_milestone(&mut self, commission_id: &str, milestone_id: &str) -> (r: Result<Vec<Effect>, (Vec<Effect>, AgreementError)>)
        requires
            old(self).wf(),
        ensures
            final(self).wf(),
            ({
                let agreements = old(self).agreements();
                let found = agreements.contains_key(commission_id@);
                let rec = agreements[commission_id@];
                let ms = old(self).milestones()[commission_id@];
                let i = last_index_of(ms, milestone_id@);
                &&& !found ==> refused(r, Seq::<Effect>::empty(), AgreementError::NotFound)
                    && *final(self) == *old(self)
                &&& found && rec.status != AgreementStatus::Active ==> refused(
                    r,
                    seq![Effect::RequireAuth { who: rec.client }],
                    AgreementError::InvalidStatus,
                ) && *final(self) == *old(self)
                &&& found && rec.status == AgreementStatus::Active && i == -1 ==> refused(
                    r,
                    seq![Effect::RequireAuth { who: rec.client }],
                    AgreementError::NotFound,
                ) && *final(self) == *old(self)
                &&& found && rec.status == AgreementStatus::Active && i != -1 && ms[i].status
                    != MilestoneStatus::Pending ==> refused(
                        r,
                        seq![Effect::RequireAuth { who: rec.client }],
                        AgreementError::InvalidStatus,
                    ) && *final(self) == *old(self)
                &&& found && rec.status == AgreementStatus::Active && i != -1 && ms[i].status
                    == MilestoneStatus::Pending ==> {
                    &&& r is Ok
                    &&& final(self).milestones() == old(self).milestones().insert(
                        commission_id@,
                        ms.update(i, MilestoneRecord { status: MilestoneStatus::Approved, ..ms[i] }),
                    )
                    &&& approval_completes(ms, milestone_id@) ==> final(self).agreements()
                        == agreements.insert(
                        commission_id@,
                        AgreementRecord { status: AgreementStatus::Completed, ..rec },
                    )
                    &&& !approval_completes(ms, milestone_id@) ==> final(self).agreements()
                        == agreements
                    &&& r->Ok_0@.len() == 2
                    &&& r->Ok_0@[0] == Effect::RequireAuth { who: rec.client }
                    &&& (r->Ok_0@[1] matches Effect::Emit {
                        event: Event::MilestoneApproved { commission_id: cid, milestone_id: mid },
                    } && cid == rec.commission_id && mid@ == milestone_id@)
                }
            }),
    {
        let mut rec = match self.agreements.get(commission_id) {
            Some(rec) => rec.copy(),
            None => return Err((Vec::new(), AgreementError::NotFound)),
        };
        if rec.status != AgreementStatus::Active {
            return Err((demand_auth(&rec.client), AgreementError::InvalidStatus));
        }
        proof {
            assert(self.agreements().contains_key(commission_id@));
        }
        let mut ms = copy_milestones(self.milestones.get(commission_id).unwrap());
        let i = match Self::find_milestone(&ms, milestone_id) {
            Some(i) => i,
            None => return Err((demand_auth(&rec.client), AgreementError::NotFound)),
        };
        proof {
            lemma_last_index_bounds(ms@, milestone_id@);
        }
        if ms[i].status != MilestoneStatus::Pending {
            return Err((demand_auth(&rec.client), AgreementError::InvalidStatus));
        }
        let completes = Self::completes(&ms, milestone_id);
        let mut approved = ms[i].copy();
        approved.status = MilestoneStatus::Approved;
        let ghost old_ms = ms@;
        ms.set(i, approved);
        proof {
            lemma_total_update_status(old_ms, i as int, ms@[i as int]);
            assert(ms@ =~= old_ms.update(i as int, ms@[i as int]));
            assert(forall|j: int| 0 <= j < ms@.len() ==> (#[trigger] ms@[j]).amount_usdc > 0) by {
                assert(forall|j: int| 0 <= j < ms@.len() && j != i ==> ms@[j] == old_ms[j]);
            }
        }
        self.milestones.insert(commission_id.to_owned(), ms);
        proof {
            assert(self.milestones() =~= old(self).milestones().insert(
                commission_id@,
                old_ms.update(i as int, MilestoneRecord { status: MilestoneStatus::Approved, ..old_ms[i as int] }),
            ));
        }
        if completes {
            rec.status = AgreementStatus::Completed;
            self.agreements.insert(commission_id.to_owned(), rec.copy());
        }
        let mut effects: Vec<Effect> = Vec::new();
        effects.push(Effect::RequireAuth { who: rec.client.clone() });
        effects.push(
            Effect::Emit {
                event: Event::MilestoneApproved {
                    commission_id: rec.commission_id,
                    milestone_id: milestone_id.to_owned(),
                },
            },
        );
        Ok(effects)
    }

    /// Whether the milestone amounts in `ms` are positive and add up to at
    /// most `budget`.
    fn fits_budget(ms: &Vec<MilestoneRecord>, budget: i128) -> (b: bool)
        ensures
            b == milestones_fit(ms@, budget),
    {
        if budget < 0 {
            proof {
                if forall|j: int| 0 <= j < ms@.len() ==> (#[trigger] ms@[j]).amount_usdc > 0 {
                    lemma_total_prefix_bounded(ms@, ms@.len() as int);
                    assert(ms@.take(ms@.len() as int) =~= ms@);
                }
            }
            return false;
        }
        let mut total: i128 = 0;
        let mut i: usize = 0;
        while i < ms.len()
            invariant
                i <= ms.len(),
                0 <= total <= budget,
                total == total_amount(ms@.take(i as int)),
                forall|j: int| 0 <= j < i ==> (#[trigger] ms@[j]).amount_usdc > 0,
            decreases ms.len() - i,
        {
            let amount = ms[i].amount_usdc;
            proof {
                assert(ms@.take(i + 1).drop_last() =~= ms@.take(i as int));
            }
            if amount <= 0 {
                return false;
            }
            if amount > budget - total {
                proof {
                    if forall|j: int| 0 <= j < ms@.len() ==> (#[trigger] ms@[j]).amount_usdc > 0 {
                        lemma_total_prefix_bounded(ms@, i + 1);
                    }
                }
                return false;
            }
            total = total + amount;
            i = i + 1;
        }
        assert(ms@.take(ms.len() as int) =~= ms@);
        true
    }

    /// Stores `record` and its milestone list under its commission id,
    /// replacing what was stored there: how a host puts back an agreement it
    /// kept in its own storage. Refused, with nothing stored, when the
    /// milestones are not all positive or exceed the budget.
    pub fn save_agreement(&mut self, record: AgreementRecord, milestones: Vec<MilestoneRecord>) -> (saved:
        bool)
        requires
            old(self).wf(),
        ensures
            final(self).wf(),
            saved == milestones_fit(milestones@, record.budget_usdc),
            saved ==> final(self).agreements() == old(self).agreements().insert(
                record.commission_id@,
                record,
            ) && final(self).milestones() == old(self).milestones().insert(
                record.commission_id@,
                milestones@,
            ),
            !saved ==> *final(self) == *old(self),
    {
        if !Self::fits_budget(&milestones, record.budget_usdc) {
            return false;
        }
        let key = record.commission_id.clone();
        let ghost ms = milestones@;
        self.agreements.insert(key.clone(), record);
        self.milestones.insert(key, milestones);
        proof {
            assert(self.milestones() =~= old(self).milestones().insert(key@, ms));
        }
        true
    }

    /// The agreement stored under `commission_id`.
    pub fn get_agreement(&self, commission_id: &str) -> (r: Result<AgreementRecord, AgreementError>)
        ensures
            self.agreements().contains_key(commission_id@) ==> r == Ok::<
                AgreementRecord,
                AgreementError,
            >(self.agreements()[commission_id@]),
            !self.agreements().contains_key(commission_id@) ==> r == Err::<
                AgreementRecord,
                AgreementError,
            >(AgreementError::NotFound),
    {
        match self.agreements.get(commission_id) {
            Some(rec) => Ok(rec.copy()),
            None => Err(AgreementError::NotFound),
        }
    }

    /// The milestones of the agreement stored under `commission_id`, in the
    /// order in which they were proposed.
    pub fn get_milestones(&self, commission_id: &str) -> (r: Result<
        Vec<MilestoneRecord>,
        AgreementError,
    >)
        requires
            self.wf(),
        ensures
            self.agreements().contains_key(commission_id@) ==> r is Ok && r->Ok_0@
                == self.milestones()[commission_id@],
            !self.agreements().contains_key(commission_id@) ==> r == Err::<
                Vec<MilestoneRecord>,
                AgreementError,
            >(AgreementError::NotFound),
    {
        if !self.agreements.contains_key(commission_id) {
            return Err(AgreementError::NotFound);
        }
        proof {
            assert(self.milestones().contains_key(commission_id@));
        }
        Ok(copy_milestones(self.milestones.get(commission_id).unwrap()))
    }
}

/// Approving the milestone that completes an agreement leaves every one of
/// its milestones approved, provided no other milestone shares its id.
pub proof fn lemma_completion_approves_all(ms: Seq<MilestoneRecord>, id: Seq<char>)
    requires
        approval_completes(ms, id),
        last_index_of(ms, id) >= 0,
        forall|j: int|
            0 <= j < ms.len() && j != last_index_of(ms, id) ==> (#[trigger] ms[j]).milestone_id@ != id,
    ensures
        ({
            let i = last_index_of(ms, id);
            let after = ms.update(i, MilestoneRecord { status: MilestoneStatus::Approved, ..ms[i] });
            forall|j: int| 0 <= j < after.len() ==> (#[trigger] after[j]).status == MilestoneStatus::Approved
        }),
{
    lemma_last_index_bounds(ms, id);
    let i = last_index_of(ms, id);
    let after = ms.update(i, MilestoneRecord { status: MilestoneStatus::Approved, ..ms[i] });
    assert forall|j: int| 0 <= j < after.len() implies (#[trigger] after[j]).status == MilestoneStatus::Approved by {
        if j != i {
            assert(ms[j].status == MilestoneStatus::Approved || ms[j].milestone_id@ == id);
        }
    }
}

/// The milestones of every stored agreement are positive and together stay
/// within its budget.
pub proof fn lemma_milestones_within_budget(c: &CommissionAgreementContract, commission_id: Seq<char>)
    requires
        c.wf(),
        c.agreements().contains_key(commission_id),
    ensures
        total_amount(c.milestones()[commission_id]) <= c.agreements()[commission_id].budget_usdc,
        forall|j: int|
            0 <= j < c.milestones()[commission_id].len() ==> (#[trigger] c.milestones()[commission_id][j]).amount_usdc > 0,
{
}

} // verus!
