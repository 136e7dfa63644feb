//! The dispute arbiter contract: disputes on escrows are opened by a party,
//! then resolved once by the admin (for the client, for the artist, or by a
//! split) or, after a waiting period, automatically in the client's favour.
use vstd::prelude::*;
use vstd::hash_map::StringHashMap;
use crate::host::{Address, Call, Effect, Event};

verus! {

/// Where a dispute stands. Every status but `Open` is final.
#[derive(Clone, Copy, Debug, PartialEq, Eq, Structural)]
pub enum DisputeStatus {
    Open,
    ResolvedForClient,
    ResolvedForArtist,
    PartiallyResolved,
    AutoResolved,
}

/// Why an arbiter operation was refused.
#[derive(Clone, Copy, Debug, PartialEq, Eq, Structural)]
pub enum DisputeError {
    AlreadyInitialized,
    NotInitialized,
    Unauthorized,
    NotFound,
    InvalidStatus,
    AlreadyResolved,
    AutoResolveNotDue,
    InvalidShareBps,
}

/// The contract error code of each variant.
pub open spec fn dispute_error_code(e: DisputeError) -> u32 {
    match e {
        DisputeError::AlreadyInitialized => 1,
        DisputeError::NotInitialized => 2,
        DisputeError::Unauthorized => 3,
        DisputeError::NotFound => 4,
        DisputeError::InvalidStatus => 5,
        DisputeError::AlreadyResolved => 6,
        DisputeError::AutoResolveNotDue => 7,
        DisputeError::InvalidShareBps => 8,
    }
}

/// The human-readable message of each variant.
pub open spec fn dispute_error_message(e: DisputeError) -> Seq<char> {
    match e {
        DisputeError::AlreadyInitialized => "already initialized"@,
        DisputeError::NotInitialized => "not initialized"@,
        DisputeError::Unauthorized => "unauthorized"@,
        DisputeError::NotFound => "dispute not found"@,
        DisputeError::InvalidStatus => "invalid status"@,
        DisputeError::AlreadyResolved => "already resolved"@,
        DisputeError::AutoResolveNotDue => "auto-resolve not yet due"@,
        DisputeError::InvalidShareBps => "invalid share bps"@,
    }
}

/// The short remediation tag of each variant.
pub open spec fn dispute_error_suggestion(e: DisputeError) -> Seq<char> {
    match e {
        DisputeError::AlreadyInitialized => "DUP"@,
        DisputeError::NotInitialized => "NO_INIT"@,
        DisputeError::Unauthorized => "AUTH"@,
        DisputeError::NotFound => "NOT_FOUND"@,
        DisputeError::InvalidStatus => "BAD_STS"@,
        DisputeError::AlreadyResolved => "RESOLVED"@,
        DisputeError::AutoResolveNotDue => "NOT_DUE"@,
        DisputeError::InvalidShareBps => "BAD_BPS"@,
    }
}

impl DisputeError {
    /// The contract error code (1 to 8, in declaration order).
    pub fn code(&self) -> (c: u32)
        ensures
            c == dispute_error_code(*self),
    {
        match self {
            DisputeError::AlreadyInitialized => 1,
            DisputeError::NotInitialized => 2,
            DisputeError::Unauthorized => 3,
            DisputeError::NotFound => 4,
            DisputeError::InvalidStatus => 5,
            DisputeError::AlreadyResolved => 6,
            DisputeError::AutoResolveNotDue => 7,
            DisputeError::InvalidShareBps => 8,
        }
    }

    /// The message shown to users for this error.
    pub fn message(&self) -> (m: &'static str)
        ensures
            m@ == dispute_error_message(*self),
    {
        match self {
            DisputeError::AlreadyInitialized => "already initialized",
            DisputeError::NotInitialized => "not initialized",
            DisputeError::Unauthorized => "unauthorized",
            DisputeError::NotFound => "dispute not found",
            DisputeError::InvalidStatus => "invalid status",
            DisputeError::AlreadyResolved => "already resolved",
            DisputeError::AutoResolveNotDue => "auto-resolve not yet due",
            DisputeError::InvalidShareBps => "invalid share bps",
        }
    }
}

/// The remediation tag that clients show next to `error`.
pub fn get_suggestion(error: DisputeError) -> (s: &'static str)
    ensures
        s@ == dispute_error_suggestion(error),
{
    match error {
        DisputeError::AlreadyInitialized => "DUP",
        DisputeError::NotInitialized => "NO_INIT",
        DisputeError::Unauthorized => "AUTH",
        DisputeError::NotFound => "NOT_FOUND",
        DisputeError::InvalidStatus => "BAD_STS",
        DisputeError::AlreadyResolved => "RESOLVED",
        DisputeError::AutoResolveNotDue => "NOT_DUE",
        DisputeError::InvalidShareBps => "BAD_BPS",
    }
}

/// One dispute, stored under the commission id of the disputed escrow.
#[derive(Debug, PartialEq, Eq)]
pub struct DisputeRecord {
    pub commission_id: String,
    pub opened_ledger: u32,
    /// The first ledger at which the dispute may be auto-resolved.
    pub auto_resolve_ledger: u32,
    pub status: DisputeStatus,
    pub resolution_note: Option<String>,
}

fn copy_note(note: &Option<String>) -> (r: Option<String>)
    ensures
        r == *note,
{
    match note {
        Some(s) => Some(s.clone()),
        None => None,
    }
}

impl DisputeRecord {
    /// A field-by-field copy.
    pub fn copy(&self) -> (r: DisputeRecord)
        ensures
            r == *self,
    {
        DisputeRecord {
            commission_id: self.commission_id.clone(),
            opened_ledger: self.opened_ledger,
            auto_resolve_ledger: self.auto_resolve_ledger,
            status: self.status,
            resolution_note: copy_note(&self.resolution_note),
        }
    }
}

/// Who runs the arbiter and which contracts it drives.
#[derive(Debug, PartialEq, Eq)]
pub struct ArbiterSettings {
    pub admin: Address,
    pub escrow_contract: Address,
    pub config_contract: Address,
    /// Ledgers after opening at which a dispute may be auto-resolved.
    pub auto_resolve_ledgers: u32,
}

/// The ledger at which a dispute opened at `opened` becomes due for
/// auto-resolution: `opened + window`, capped at the last ledger.
pub open spec fn due_ledger(opened: u32, window: u32) -> u32 {
    if opened + window > u32::MAX {
        u32::MAX
    } else {
        (opened + window) as u32
    }
}

/// Resolution by the admin moves an open dispute to `to`, keeping `note`.
pub open spec fn resolve_step(r: DisputeRecord, to: DisputeStatus, note: String) -> Result<
    DisputeRecord,
    DisputeError,
> {
    if r.status != DisputeStatus::Open {
        Err(DisputeError::InvalidStatus)
    } else {
        Ok(DisputeRecord { status: to, resolution_note: Some(note), ..r })
    }
}

/// A split resolution gives the client `client_share_bps` of 10000.
pub open spec fn partial_step(r: DisputeRecord, client_share_bps: u32, note: String) -> Result<
    DisputeRecord,
    DisputeError,
> {
    if r.status != DisputeStatus::Open {
        Err(DisputeError::InvalidStatus)
    } else if client_share_bps > 10000 {
        Err(DisputeError::InvalidShareBps)
    } else {
        Ok(
            DisputeRecord {
                status: DisputeStatus::PartiallyResolved,
                resolution_note: Some(note),
                ..r
            },
        )
    }
}

/// Auto-resolution settles an open dispute once `ledger` reaches its due
/// ledger.
pub open spec fn auto_step(r: DisputeRecord, ledger: u32) -> Result<DisputeRecord, DisputeError> {
    if r.status != DisputeStatus::Open {
        Err(DisputeError::InvalidStatus)
    } else if ledger < r.auto_resolve_ledger {
        Err(DisputeError::AutoResolveNotDue)
    } else {
        Ok(DisputeRecord { status: DisputeStatus::AutoResolved, ..r })
    }
}

/// A resolved dispute is final: no resolution applies to it again.
pub proof fn lemma_resolution_is_final(
    r: DisputeRecord,
    to: DisputeStatus,
    note: String,
    client_share_bps: u32,
    ledger: u32,
)
    requires
        r.status != DisputeStatus::Open,
    ensures
        resolve_step(r, to, note) == Err::<DisputeRecord, DisputeError>(
            DisputeError::InvalidStatus,
        ),
        partial_step(r, client_share_bps, note) == Err::<DisputeRecord, DisputeError>(
            DisputeError::InvalidStatus,
        ),
        auto_step(r, ledger) == Err::<DisputeRecord, DisputeError>(DisputeError::InvalidStatus),
{
}

/// An open dispute is due for auto-resolution exactly from its due ledger
/// on, and the due ledger is never before the opening ledger.
pub proof fn lemma_auto_resolve_due(r: DisputeRecord, window: u32, ledger: u32)
    requires
        r.status == DisputeStatus::Open,
        r.auto_resolve_ledger == due_ledger(r.opened_ledger, window),
    ensures
        auto_step(r, ledger) is Ok <==> ledger >= due_ledger(r.opened_ledger, window),
        r.opened_ledger <= r.auto_resolve_ledger,
        r.opened_ledger + window <= u32::MAX ==> r.auto_resolve_ledger == r.opened_ledger
            + window,
{
}

/// The dispute arbiter's persistent state.
pub struct DisputeArbiter {
    settings: Option<ArbiterSettings>,
    disputes: StringHashMap<DisputeRecord>,
}

impl DisputeArbiter {
    /// The settings, once initialized.
    pub closed spec fn settings(&self) -> Option<ArbiterSettings> {
        self.settings
    }

    /// The stored disputes, by commission id.
    pub closed spec fn disputes(&self) -> Map<Seq<char>, DisputeRecord> {
        self.disputes@
    }

    /// Every dispute is stored under its own commission id.
    pub open spec fn wf(&self) -> bool {
        forall|k: Seq<char>|
            #[trigger] self.disputes().contains_key(k) ==> self.disputes()[k].commission_id@ == k
    }

    /// An arbiter that is not initialized and holds no disputes.
    pub fn new() -> (a: DisputeArbiter)
        ensures
            a.wf(),
            a.settings() is None,
            a.disputes() == Map::<Seq<char>, DisputeRecord>::empty(),
    {
        DisputeArbiter { settings: None, disputes: StringHashMap::new() }
    }

    /// Sets the admin, the escrow and configuration contracts, and the
    /// auto-resolve window, once.
    ///
    /// Needs `admin`'s authorization.
    pub fn initialize(
        &mut self,
        admin: Address,
        escrow_contract: Address,
        config_contract: Address,
        auto_resolve_ledgers: u32,
    ) -> (r: Result<Vec<Effect>, DisputeError>)
        requires
            old(self).wf(),
        ensures
            final(self).wf(),
            old(self).settings() is Some ==> r == Err::<Vec<Effect>, DisputeError>(
                DisputeError::AlreadyInitialized,
            ) && *final(self) == *old(self),
            old(self).settings() is None ==> {
                &&& r is Ok
                &&& final(self).settings() == Some(
                    ArbiterSettings { admin, escrow_contract, config_contract, auto_resolve_ledgers },
                )
                &&& final(self).disputes() == old(self).disputes()
                &&& r->Ok_0@ == seq![Effect::RequireAuth { who: admin }]
            },
    {
        if self.settings.is_some() {
            return Err(DisputeError::AlreadyInitialized);
        }
        let mut effects: Vec<Effect> = Vec::new();
        effects.push(Effect::RequireAuth { who: admin.clone() });
        self.settings = Some(
            ArbiterSettings { admin, escrow_contract, config_contract, auto_resolve_ledgers },
        );
        Ok(effects)
    }

    /// Opens a dispute on the escrow of `commission_id` at the current
    /// `ledger`, and opens it on the escrow contract too.
    ///
    /// Needs `initiator`'s authorization.
    pub fn open_dispute(&mut self, commission_id: String, initiator: Address, ledger: u32) -> (r:
        Result<Vec<Effect>, DisputeError>)
        requires
            old(self).wf(),
        ensures
            final(self).wf(),
            old(self).settings() is None ==> r == Err::<Vec<Effect>, DisputeError>(
                DisputeError::NotInitialized,
            ) && *final(self) == *old(self),
            old(self).settings() is Some && old(self).disputes().contains_key(commission_id@)
                ==> r == Err::<Vec<Effect>, DisputeError>(DisputeError::AlreadyResolved)
                && *final(self) == *old(self),
            old(self).settings() is Some && !old(self).disputes().contains_key(commission_id@)
                ==> {
                let s = old(self).settings()->Some_0;
                &&& r is Ok
                &&& final(self).settings() == old(self).settings()
                &&& final(self).disputes() == old(self).disputes().insert(
                    commission_id@,
                    DisputeRecord {
                        commission_id,
                        opened_ledger: ledger,
                        auto_resolve_ledger: due_ledger(ledger, s.auto_resolve_ledgers),
                        status: DisputeStatus::Open,
                        resolution_note: None,
                    },
                )
                &&& r->Ok_0@ == seq![
                    Effect::RequireAuth { who: initiator },
                    Effect::Invoke {
                        call: Call::EscrowOpenDispute {
                            escrow: s.escrow_contract,
                            commission_id,
                            initiator,
                        },
                    },
                    Effect::Emit { event: Event::DisputeOpened { commission_id, initiator } },
                ]
            },
    {
        let escrow = match &self.settings {
            Some(s) => s.escrow_contract.clone(),
            None => return Err(DisputeError::NotInitialized),
        };
        let window = match &self.settings {
            Some(s) => s.auto_resolve_ledgers,
            None => 0,
        };
        if self.disputes.contains_key(commission_id.as_str()) {
            return Err(DisputeError::AlreadyResolved);
        }
        let record = DisputeRecord {
            commission_id: commission_id.clone(),
            opened_ledger: ledger,
            auto_resolve_ledger: ledger.saturating_add(window),
            status: DisputeStatus::Open,
            resolution_note: None,
        };
        self.disputes.insert(commission_id.clone(), record);
        let mut effects: Vec<Effect> = Vec::new();
        effects.push(Effect::RequireAuth { who: initiator.clone() });
        effects.push(
            Effect::Invoke {
                call: Call::EscrowOpenDispute {
                    escrow,
                    commission_id: commission_id.clone(),
                    initiator: initiator.clone(),
                },
            },
        );
        effects.push(Effect::Emit { event: Event::DisputeOpened { commission_id, initiator } });
        Ok(effects)
    }

    /// The admin's decision on an open dispute: the shared body of resolving
    /// for the client and for the artist.
    fn decide(&mut self, commission_id: &str, for_client: bool, note: String) -> (r: Result<
        Vec<Effect>,
        DisputeError,
    >)
        requires
            old(self).wf(),
        ensures
            final(self).wf(),
            ({
                let to = if for_client {
                    DisputeStatus::ResolvedForClient
                } else {
                    DisputeStatus::ResolvedForArtist
                };
                let s = old(self).settings()->Some_0;
                let found = old(self).disputes().contains_key(commission_id@);
                let rec = old(self).disputes()[commission_id@];
                &&& old(self).settings() is None ==> r == Err::<Vec<Effect>, DisputeError>(
                    DisputeError::NotInitialized,
                ) && *final(self) == *old(self)
                &&& old(self).settings() is Some && !found ==> r == Err::<
                    Vec<Effect>,
                    DisputeError,
                >(DisputeError::NotFound) && *final(self) == *old(self)
                &&& old(self).settings() is Some && found ==> match resolve_step(rec, to, note) {
                    Err(e) => r == Err::<Vec<Effect>, DisputeError>(e) && *final(self) == *old(self),
                    Ok(next) => {
                        &&& r is Ok
                        &&& final(self).settings() == old(self).settings()
                        &&& final(self).disputes() == old(self).disputes().insert(
                            commission_id@,
                            next,
                        )
                        &&& r->Ok_0@ == seq![
                            Effect::RequireAuth { who: s.admin },
                            Effect::Invoke {
                                call: if for_client {
                                    Call::EscrowRefundClient {
                                        escrow: s.escrow_contract,
                                        commission_id: rec.commission_id,
                                        config: s.config_contract,
                                    }
                                } else {
                                    Call::EscrowReleasePayment {
                                        escrow: s.escrow_contract,
                                        commission_id: rec.commission_id,
                                        config: s.config_contract,
                                    }
                                },
                            },
                            Effect::Emit {
                                event: if for_client {
                                    Event::DisputeResolvedForClient {
                                        commission_id: rec.commission_id,
                                    }
                                } else {
                                    Event::DisputeResolvedForArtist {
                                        commission_id: rec.commission_id,
                                    }
                                },
                            },
                        ]
                    },
                }
            }),
    {
        let (admin, escrow, config) = match &self.settings {
            Some(s) => (s.admin.clone(), s.escrow_contract.clone(), s.config_contract.clone()),
            None => return Err(DisputeError::NotInitialized),
        };
        let mut rec = match self.disputes.get(commission_id) {
            Some(rec) => rec.copy(),
            None => return Err(DisputeError::NotFound),
        };
        if rec.status != DisputeStatus::Open {
            return Err(DisputeError::InvalidStatus);
        }
        rec.status = if for_client {
            DisputeStatus::ResolvedForClient
        } else {
            DisputeStatus::ResolvedForArtist
        };
        rec.resolution_note = Some(note);
        let id = rec.commission_id.clone();
        self.disputes.insert(commission_id.to_owned(), rec);
        let call = if for_client {
            Call::EscrowRefundClient { escrow, commission_id: id.clone(), config }
        } else {
            Call::EscrowReleasePayment { escrow, commission_id: id.clone(), config }
        };
        let event = if for_client {
            Event::DisputeResolvedForClient { commission_id: id }
        } else {
            Event::DisputeResolvedForArtist { commission_id: id }
        };
        let mut effects: Vec<Effect> = Vec::new();
        effects.push(Effect::RequireAuth { who: admin });
        effects.push(Effect::Invoke { call });
        effects.push(Effect::Emit { event });
        Ok(effects)
    }

    /// The admin resolves an open dispute for the client, who is refunded
    /// by the escrow contract.
    ///
    /// Needs the admin's authorization.
    pub fn resolve_for_client(&mut self, commission_id: &str, note: String) -> (r: Result<
        Vec<Effect>,
        DisputeError,
    >)
        requires
            old(self).wf(),
        ensures
            final(self).wf(),
            ({
                let s = old(self).settings()->Some_0;
                let found = old(self).disputes().contains_key(commission_id@);
                let rec = old(self).disputes()[commission_id@];
                &&& old(self).settings() is None ==> r == Err::<Vec<Effect>, DisputeError>(
                    DisputeError::NotInitialized,
                ) && *final(self) == *old(self)
                &&& old(self).settings() is Some && !found ==> r == Err::<
                    Vec<Effect>,
                    DisputeError,
                >(DisputeError::NotFound) && *final(self) == *old(self)
                &&& old(self).settings() is Some && found ==> match resolve_step(
                    rec,
                    DisputeStatus::ResolvedForClient,
                    note,
                ) {
                    Err(e) => r == Err::<Vec<Effect>, DisputeError>(e) && *final(self) == *old(self),
                    Ok(next) => {
                        &&& r is Ok
                        &&& final(self).settings() == old(self).settings()
                        &&& final(self).disputes() == old(self).disputes().insert(
                            commission_id@,
                            next,
                        )
                        &&& r->Ok_0@ == seq![
                            Effect::RequireAuth { who: s.admin },
                            Effect::Invoke {
                                call: Call::EscrowRefundClient {
                                    escrow: s.escrow_contract,
                                    commission_id: rec.commission_id,
                                    config: s.config_contract,
                                },
                            },
                            Effect::Emit {
                                event: Event::DisputeResolvedForClient {
                                    commission_id: rec.commission_id,
                                },
                            },
                        ]
                    },
                }
            }),
    {
        self.decide(commission_id, true, note)
    }

    /// The admin resolves an open dispute for the artist, who is paid by
    /// the escrow contract.
    ///
    /// Needs the admin's authorization.
    pub fn resolve_for_artist(&mut self, commission_id: &str, note: String) -> (r: Result<
        Vec<Effect>,
        DisputeError,
    >)
        requires
            old(self).wf(),
        ensures
            final(self).wf(),
            ({
                let s = old(self).settings()->Some_0;
                let found = old(self).disputes().contains_key(commission_id@);
                let rec = old(self).disputes()[commission_id@];
                &&& old(self).settings() is None ==> r == Err::<Vec<Effect>, DisputeError>(
                    DisputeError::NotInitialized,
                ) && *final(self) == *old(self)
                &&& old(self).settings() is Some && !found ==> r == Err::<
                    Vec<Effect>,
                    DisputeError,
                >(DisputeError::NotFound) && *final(self) == *old(self)
                &&& old(self).settings() is Some && found ==> match resolve_step(
                    rec,
                    DisputeStatus::ResolvedForArtist,
                    note,
                ) {
                    Err(e) => r == Err::<Vec<Effect>, DisputeError>(e) && *final(self) == *old(self),
                    Ok(next) => {
                        &&& r is Ok
                        &&& final(self).settings() == old(self).settings()
                        &&& final(self).disputes() == old(self).disputes().insert(
                            commission_id@,
                            next,
                        )
                        &&& r->Ok_0@ == seq![
                            Effect::RequireAuth { who: s.admin },
                            Effect::Invoke {
                                call: Call::EscrowReleasePayment {
                                    escrow: s.escrow_contract,
                                    commission_id: rec.commission_id,
                                    config: s.config_contract,
                                },
                            },
                            Effect::Emit {
                                event: Event::DisputeResolvedForArtist {
                                    commission_id: rec.commission_id,
                                },
                            },
                        ]
                    },
                }
            }),
    {
        self.decide(commission_id, false, note)
    }

    /// The admin resolves an open dispute by a split: the client's share is
    /// `client_share_bps` out of 10000.
    ///
    /// Needs the admin's authorization.
    pub fn partial_resolve(&mut self, commission_id: &str, client_share_bps: u32, note: String) -> (r:
        Result<Vec<Effect>, DisputeError>)
        requires
            old(self).wf(),
        ensures
            final(self).wf(),
            ({
                let s = old(self).settings()->Some_0;
                let found = old(self).disputes().contains_key(commission_id@);
                let rec = old(self).disputes()[commission_id@];
                &&& old(self).settings() is None ==> r == Err::<Vec<Effect>, DisputeError>(
                    DisputeError::NotInitialized,
                ) && *final(self) == *old(self)
                &&& old(self).settings() is Some && !found ==> r == Err::<
                    Vec<Effect>,
                    DisputeError,
                >(DisputeError::NotFound) && *final(self) == *old(self)
                &&& old(self).settings() is Some && found ==> match partial_step(
                    rec,
                    client_share_bps,
                    note,
                ) {
                    Err(e) => r == Err::<Vec<Effect>, DisputeError>(e) && *final(self) == *old(self),
                    Ok(next) => {
                        &&& r is Ok
                        &&& final(self).settings() == old(self).settings()
                        &&& final(self).disputes() == old(self).disputes().insert(
                            commission_id@,
                            next,
                        )
                        &&& r->Ok_0@ == seq![
                            Effect::RequireAuth { who: s.admin },
                            Effect::Emit {
                                event: Event::DisputePartiallyResolved {
                                    commission_id: rec.commission_id,
                                    client_share_bps,
                                },
                            },
                        ]
                    },
                }
            }),
    {
        let admin = match &self.settings {
            Some(s) => s.admin.clone(),
            None => return Err(DisputeError::NotInitialized),
        };
        let mut rec = match self.disputes.get(commission_id) {
            Some(rec) => rec.copy(),
            None => return Err(DisputeError::NotFound),
        };
        if rec.status != DisputeStatus::Open {
            return Err(DisputeError::InvalidStatus);
        }
        if client_share_bps > 10000 {
            return Err(DisputeError::InvalidShareBps);
        }
        rec.status = DisputeStatus::PartiallyResolved;
        rec.resolution_note = Some(note);
        let id = rec.commission_id.clone();
        self.disputes.insert(commission_id.to_owned(), rec);
        let mut effects: Vec<Effect> = Vec::new();
        effects.push(Effect::RequireAuth { who: admin });
        effects.push(
            Effect::Emit {
                event: Event::DisputePartiallyResolved { commission_id: id, client_share_bps },
            },
        );
        Ok(effects)
    }

    /// Settles an open dispute in the client's favour once the current
    /// `ledger` has reached its auto-resolve ledger; anyone may trigger it.
    pub fn auto_resolve(&mut self, commission_id: &str, ledger: u32) -> (r: Result<
        Vec<Effect>,
        DisputeError,
    >)
        requires
            old(self).wf(),
        ensures
            final(self).wf(),
            ({
                let s = old(self).settings()->Some_0;
                let found = old(self).disputes().contains_key(commission_id@);
                let rec = old(self).disputes()[commission_id@];
                &&& old(self).settings() is None ==> r == Err::<Vec<Effect>, DisputeError>(
                    DisputeError::NotInitialized,
                ) && *final(self) == *old(self)
                &&& old(self).settings() is Some && !found ==> r == Err::<
                    Vec<Effect>,
                    DisputeError,
                >(DisputeError::NotFound) && *final(self) == *old(self)
                &&& old(self).settings() is Some && found ==> match auto_step(rec, ledger) {
                    Err(e) => r == Err::<Vec<Effect>, DisputeError>(e) && *final(self) == *old(self),
                    Ok(next) => {
                        &&& r is Ok
                        &&& final(self).settings() == old(self).settings()
                        &&& final(self).disputes() == old(self).disputes().insert(
                            commission_id@,
                            next,
                        )
                        &&& r->Ok_0@ == seq![
                            Effect::Invoke {
                                call: Call::EscrowRefundClient {
                                    escrow: s.escrow_contract,
                                    commission_id: rec.commission_id,
                                    config: s.config_contract,
                                },
                            },
                            Effect::Emit {
                                event: Event::DisputeAutoResolved {
                                    commission_id: rec.commission_id,
                                },
                            },
                        ]
                    },
                }
            }),
    {
        let (escrow, config) = match &self.settings {
            Some(s) => (s.escrow_contract.clone(), s.config_contract.clone()),
            None => return Err(DisputeError::NotInitialized),
        };
        let mut rec = match self.disputes.get(commission_id) {
            Some(rec) => rec.copy(),
            None => return Err(DisputeError::NotFound),
        };
        if rec.status != DisputeStatus::Open {
            return Err(DisputeError::InvalidStatus);
        }
        if ledger < rec.auto_resolve_ledger {
            return Err(DisputeError::AutoResolveNotDue);
        }
        rec.status = DisputeStatus::AutoResolved;
        let id = rec.commission_id.clone();
        self.disputes.insert(commission_id.to_owned(), rec);
        let mut effects: Vec<Effect> = Vec::new();
        effects.push(
            Effect::Invoke {
                call: Call::EscrowRefundClient { escrow, commission_id: id.clone(), config },
            },
        );
        effects.push(Effect::Emit { event: Event::DisputeAutoResolved { commission_id: id } });
        Ok(effects)
    }

    /// Stores `record` under its commission id, replacing what was stored
    /// there: how a host puts back a dispute it kept in its own storage.
    pub fn save_dispute(&mut self, record: DisputeRecord)
        requires
            old(self).wf(),
        ensures
            final(self).wf(),
            final(self).disputes() == old(self).disputes().insert(record.commission_id@, record),
            final(self).settings() == old(self).settings(),
    {
        let key = record.commission_id.clone();
        self.disputes.insert(key, record);
    }

    /// The dispute stored under `commission_id`.
    pub fn get_dispute(&self, commission_id: &str) -> (r: Result<DisputeRecord, DisputeError>)
        ensures
            self.disputes().contains_key(commission_id@) ==> r == Ok::<
                DisputeRecord,
                DisputeError,
            >(self.disputes()[commission_id@]),
            !self.disputes().contains_key(commission_id@) ==> r == Err::<
                DisputeRecord,
                DisputeError,
            >(DisputeError::NotFound),
    {
        match self.disputes.get(commission_id) {
            Some(rec) => Ok(rec.copy()),
            None => Err(DisputeError::NotFound),
        }
    }
}

} // verus!
