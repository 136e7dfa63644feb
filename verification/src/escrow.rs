//! The escrow contract: USDC locked for a commission until it is released to
//! the artist (less the platform fee), refunded to the client, or expired.
//!
//! Every escrow record moves through the state machine
//! `Locked -> {Released, Refunded, Expired, Disputed}` and
//! `Disputed -> Refunded`; `Released`, `Refunded` and `Expired` are final.
use vstd::prelude::*;
use vstd::hash_map::StringHashMap;
use crate::host::{demand_auth, refused, Address, Effect, Event};

verus! {

/// Ledgers until an escrow record expires from persistent storage
/// (about 30 days at 6 s per ledger).
pub const ESCROW_TTL_LEDGERS: u32 = 432000;

/// Basis points in one whole.
pub const BPS_DENOMINATOR: i128 = 10000;

/// Where an escrow stands.
#[derive(Clone, Copy, Debug, PartialEq, Eq, Structural)]
pub enum CommissionStatus {
    Locked,
    Released,
    Refunded,
    Disputed,
    Expired,
}

/// Why an escrow operation was refused.
#[derive(Clone, Copy, Debug, PartialEq, Eq, Structural)]
pub enum EscrowError {
    AlreadyExists,
    NotFound,
    InvalidStatus,
    Unauthorized,
    InvalidAmount,
    InvalidFeeBps,
    DisputeAlreadyOpen,
    NotExpired,
    /// A re-entrant call was detected and rejected.
    Reentrant,
    /// Client and artist must be distinct, or an address failed validation.
    InvalidAddress,
    /// The client does not hold enough of the token.
    InsufficientBalance,
    /// A fee computation would leave the range of `i128`.
    ArithmeticOverflow,
}

/// The contract error code of each variant.
pub open spec fn escrow_error_code(e: EscrowError) -> u32 {
    match e {
        EscrowError::AlreadyExists => 1,
        EscrowError::NotFound => 2,
        EscrowError::InvalidStatus => 3,
        EscrowError::Unauthorized => 4,
        EscrowError::InvalidAmount => 5,
        EscrowError::InvalidFeeBps => 6,
        EscrowError::DisputeAlreadyOpen => 7,
        EscrowError::NotExpired => 8,
        EscrowError::Reentrant => 9,
        EscrowError::InvalidAddress => 10,
        EscrowError::InsufficientBalance => 11,
        EscrowError::ArithmeticOverflow => 12,
    }
}

/// The human-readable message of each variant.
pub open spec fn escrow_error_message(e: EscrowError) -> Seq<char> {
    match e {
        EscrowError::AlreadyExists => "escrow already exists"@,
        EscrowError::NotFound => "escrow not found"@,
        EscrowError::InvalidStatus => "invalid escrow status for operation"@,
        EscrowError::Unauthorized => "caller is not authorized"@,
        EscrowError::InvalidAmount => "amount must be greater than zero"@,
        EscrowError::InvalidFeeBps => "fee basis points out of range"@,
        EscrowError::DisputeAlreadyOpen => "a dispute is already open"@,
        EscrowError::NotExpired => "escrow has not reached its expiry ledger"@,
        EscrowError::Reentrant => "re-entrant call rejected"@,
        EscrowError::InvalidAddress => "invalid address"@,
        EscrowError::InsufficientBalance => "client does not hold enough USDC"@,
        EscrowError::ArithmeticOverflow => "arithmetic operation would overflow"@,
    }
}

/// The short remediation tag of each variant.
pub open spec fn escrow_error_suggestion(e: EscrowError) -> Seq<char> {
    match e {
        EscrowError::AlreadyExists => "DUP"@,
        EscrowError::NotFound => "NOT_FOUND"@,
        EscrowError::InvalidStatus => "BAD_STS"@,
        EscrowError::Unauthorized => "AUTH"@,
        EscrowError::InvalidAmount => "BAD_AMT"@,
        EscrowError::InvalidFeeBps => "BAD_BPS"@,
        EscrowError::DisputeAlreadyOpen => "DIS_OPEN"@,
        EscrowError::NotExpired => "NOT_EXP"@,
        EscrowError::Reentrant => "REENTRY"@,
        EscrowError::InvalidAddress => "BAD_ADDR"@,
        EscrowError::InsufficientBalance => "LOW_BAL"@,
        EscrowError::ArithmeticOverflow => "OVERFL"@,
    }
}

impl EscrowError {
    /// The contract error code (1 to 12, in declaration order).
    pub fn code(&self) -> (c: u32)
        ensures
            c == escrow_error_code(*self),
    {
        match self {
            EscrowError::AlreadyExists => 1,
            EscrowError::NotFound => 2,
            EscrowError::InvalidStatus => 3,
            EscrowError::Unauthorized => 4,
            EscrowError::InvalidAmount => 5,
            EscrowError::InvalidFeeBps => 6,
            EscrowError::DisputeAlreadyOpen => 7,
            EscrowError::NotExpired => 8,
            EscrowError::Reentrant => 9,
            EscrowError::InvalidAddress => 10,
            EscrowError::InsufficientBalance => 11,
            EscrowError::ArithmeticOverflow => 12,
        }
    }

    /// The message shown to users for this error.
    pub fn message(&self) -> (m: &'static str)
        ensures
            m@ == escrow_error_message(*self),
    {
        match self {
            EscrowError::AlreadyExists => "escrow already exists",
            EscrowError::NotFound => "escrow not found",
            EscrowError::InvalidStatus => "invalid escrow status for operation",
            EscrowError::Unauthorized => "caller is not authorized",
            EscrowError::InvalidAmount => "amount must be greater than zero",
            EscrowError::InvalidFeeBps => "fee basis points out of range",
            EscrowError::DisputeAlreadyOpen => "a dispute is already open",
            EscrowError::NotExpired => "escrow has not reached its expiry ledger",
            EscrowError::Reentrant => "re-entrant call rejected",
            EscrowError::InvalidAddress => "invalid address",
            EscrowError::InsufficientBalance => "client does not hold enough USDC",
            EscrowError::ArithmeticOverflow => "arithmetic operation would overflow",
        }
    }
}

/// The remediation tag that clients show next to `error`.
pub fn get_suggestion(error: EscrowError) -> (s: &'static str)
    ensures
        s@ == escrow_error_suggestion(error),
{
    match error {
        EscrowError::AlreadyExists => "DUP",
        EscrowError::NotFound => "NOT_FOUND",
        EscrowError::InvalidStatus => "BAD_STS",
        EscrowError::Unauthorized => "AUTH",
        EscrowError::InvalidAmount => "BAD_AMT",
        EscrowError::InvalidFeeBps => "BAD_BPS",
        EscrowError::DisputeAlreadyOpen => "DIS_OPEN",
        EscrowError::NotExpired => "NOT_EXP",
        EscrowError::Reentrant => "REENTRY",
        EscrowError::InvalidAddress => "BAD_ADDR",
        EscrowError::InsufficientBalance => "LOW_BAL",
        EscrowError::ArithmeticOverflow => "OVERFL",
    }
}

// ── Fee arithmetic ─────────────────────────────────────────────────────────

/// Whether `x` is a value of `i128`.
pub open spec fn fits_i128(x: int) -> bool {
    i128::MIN <= x <= i128::MAX
}

/// Integer division rounding toward zero, as Rust's `/` does.
pub open spec fn div_toward_zero(a: int, d: int) -> int
    recommends
        d > 0,
{
    if a >= 0 {
        a / d
    } else {
        -((-a) / d)
    }
}

/// The platform fee on `amount` at `fee_bps` basis points.
pub open spec fn fee_of(amount: int, fee_bps: int) -> int {
    div_toward_zero(amount * fee_bps, 10000)
}

/// The fee split of `amount` at `fee_bps`: `(fee, payout)`, or
/// `ArithmeticOverflow` when `amount * fee_bps` or `amount - fee` leaves `i128`.
pub open spec fn fee_split(amount: i128, fee_bps: u32) -> Result<(i128, i128), EscrowError> {
    let fee = fee_of(amount as int, fee_bps as int);
    if !fits_i128(amount * fee_bps) || !fits_i128(amount - fee) {
        Err(EscrowError::ArithmeticOverflow)
    } else {
        Ok((fee as i128, (amount - fee) as i128))
    }
}

/// Splits `amount` into the platform fee (`fee_bps` basis points, rounded
/// toward zero) and the artist's payout, refusing with `ArithmeticOverflow`
/// rather than wrapping.
pub fn calculate_fee_split(amount: i128, fee_bps: u32) -> (r: Result<(i128, i128), EscrowError>)
    ensures
        r == fee_split(amount, fee_bps),
{
    let product = match amount.checked_mul(fee_bps as i128) {
        Some(p) => p,
        None => return Err(EscrowError::ArithmeticOverflow),
    };
    let fee = product / BPS_DENOMINATOR;
    assert(fee == fee_of(amount as int, fee_bps as int));
    match amount.checked_sub(fee) {
        Some(payout) => Ok((fee, payout)),
        None => Err(EscrowError::ArithmeticOverflow),
    }
}

/// Fee and payout always add up to the escrowed amount.
pub proof fn lemma_fee_split_conserves_amount(amount: i128, fee_bps: u32)
    ensures
        fee_split(amount, fee_bps) matches Ok((fee, payout)) ==> fee + payout == amount,
{
}

/// At a rate of at most 100%, the fee on a non-negative amount lies between
/// zero and the amount, and so does the payout.
pub proof fn lemma_fee_split_bounded(amount: i128, fee_bps: u32)
    requires
        amount >= 0,
        fee_bps <= 10000,
    ensures
        fee_split(amount, fee_bps) matches Ok((fee, payout)) ==> {
            &&& 0 <= fee <= amount
            &&& 0 <= payout <= amount
        },
{
    assert(0 <= amount * fee_bps <= amount * 10000) by (nonlinear_arith)
        requires
            amount >= 0,
            fee_bps <= 10000,
    ;
}

/// Amounts up to `i128::MAX / 10000` never overflow at a rate of at most 100%.
pub proof fn lemma_fee_split_safe_range(amount: i128, fee_bps: u32)
    requires
        0 <= amount <= i128::MAX / 10000,
        fee_bps <= 10000,
    ensures
        fee_split(amount, fee_bps) is Ok,
{
    assert(0 <= amount * fee_bps <= amount * 10000) by (nonlinear_arith)
        requires
            amount >= 0,
            fee_bps <= 10000,
    ;
}

/// Checks that `balance` covers `required`, giving the balance back.
pub fn check_sufficient_balance(balance: i128, required: i128) -> (r: Result<i128, EscrowError>)
    ensures
        balance < required ==> r == Err::<i128, EscrowError>(EscrowError::InsufficientBalance),
        balance >= required ==> r == Ok::<i128, EscrowError>(balance),
{
    if balance < required {
        Err(EscrowError::InsufficientBalance)
    } else {
        Ok(balance)
    }
}

// ── Records and their transitions ──────────────────────────────────────────

/// The platform settings that the escrow reads from the configuration
/// contract.
pub struct ConfigBundle {
    pub fee_bps: u32,
    pub usdc: Address,
    pub admin: Address,
    pub platform_wallet: Address,
}

/// One escrow, stored under its commission id.
#[derive(Debug, PartialEq, Eq)]
pub struct EscrowRecord {
    pub commission_id: String,
    pub client: Address,
    pub artist: Address,
    pub amount: i128,
    pub fee_bps: u32,
    pub status: CommissionStatus,
    pub created_ledger: u32,
}

impl EscrowRecord {
    /// A field-by-field copy.
    pub fn copy(&self) -> (r: EscrowRecord)
        ensures
            r == *self,
    {
        EscrowRecord {
            commission_id: self.commission_id.clone(),
            client: self.client.clone(),
            artist: self.artist.clone(),
            amount: self.amount,
            fee_bps: self.fee_bps,
            status: self.status,
            created_ledger: self.created_ledger,
        }
    }
}

/// `r` with its status replaced by `s`.
pub open spec fn with_status(r: EscrowRecord, s: CommissionStatus) -> EscrowRecord {
    EscrowRecord { status: s, ..r }
}

/// Releasing pays out a `Locked` escrow whose fee split stays in range.
pub open spec fn release_step(r: EscrowRecord) -> Result<EscrowRecord, EscrowError> {
    if r.status != CommissionStatus::Locked {
        Err(EscrowError::InvalidStatus)
    } else if fee_split(r.amount, r.fee_bps) is Err {
        Err(EscrowError::ArithmeticOverflow)
    } else {
        Ok(with_status(r, CommissionStatus::Released))
    }
}

/// Refunding returns a `Locked` or `Disputed` escrow to the client.
pub open spec fn refund_step(r: EscrowRecord) -> Result<EscrowRecord, EscrowError> {
    if r.status != CommissionStatus::Locked && r.status != CommissionStatus::Disputed {
        Err(EscrowError::InvalidStatus)
    } else {
        Ok(with_status(r, CommissionStatus::Refunded))
    }
}

/// Expiry marks a `Locked` escrow expired once the ledger reaches
/// `expiry_ledger`.
pub open spec fn expire_step(r: EscrowRecord, expiry_ledger: u32, ledger: u32) -> Result<
    EscrowRecord,
    EscrowError,
> {
    if r.status != CommissionStatus::Locked {
        Err(EscrowError::InvalidStatus)
    } else if ledger < expiry_ledger {
        Err(EscrowError::NotExpired)
    } else {
        Ok(with_status(r, CommissionStatus::Expired))
    }
}

/// A dispute can be opened on a `Locked` escrow by its client or its artist.
pub open spec fn dispute_step(r: EscrowRecord, initiator: Address) -> Result<
    EscrowRecord,
    EscrowError,
> {
    if r.status == CommissionStatus::Disputed {
        Err(EscrowError::DisputeAlreadyOpen)
    } else if r.status != CommissionStatus::Locked {
        Err(EscrowError::InvalidStatus)
    } else if initiator@ != r.client@ && initiator@ != r.artist@ {
        Err(EscrowError::Unauthorized)
    } else {
        Ok(with_status(r, CommissionStatus::Disputed))
    }
}

/// Whether an escrow in status `s` can never change again.
pub open spec fn is_final(s: CommissionStatus) -> bool {
    s == CommissionStatus::Released || s == CommissionStatus::Refunded || s
        == CommissionStatus::Expired
}

/// Released, refunded and expired escrows are final: every operation on them
/// is refused.
pub proof fn lemma_final_states_are_absorbing(
    r: EscrowRecord,
    initiator: Address,
    expiry_ledger: u32,
    ledger: u32,
)
    requires
        is_final(r.status),
    ensures
        release_step(r) is Err,
        refund_step(r) is Err,
        expire_step(r, expiry_ledger, ledger) is Err,
        dispute_step(r, initiator) is Err,
{
}

/// No transition touches anything but the status: the parties, the amount,
/// the fee rate and the creation ledger of an escrow never change.
pub proof fn lemma_transitions_keep_terms(
    r: EscrowRecord,
    initiator: Address,
    expiry_ledger: u32,
    ledger: u32,
)
    ensures
        release_step(r) matches Ok(n) ==> n == with_status(r, CommissionStatus::Released),
        refund_step(r) matches Ok(n) ==> n == with_status(r, CommissionStatus::Refunded),
        expire_step(r, expiry_ledger, ledger) matches Ok(n) ==> n == with_status(
            r,
            CommissionStatus::Expired,
        ),
        dispute_step(r, initiator) matches Ok(n) ==> n == with_status(
            r,
            CommissionStatus::Disputed,
        ),
{
}

/// A disputed escrow can only be settled by a refund to the client.
pub proof fn lemma_disputed_only_refunds(
    r: EscrowRecord,
    initiator: Address,
    expiry_ledger: u32,
    ledger: u32,
)
    requires
        r.status == CommissionStatus::Disputed,
    ensures
        refund_step(r) is Ok,
        release_step(r) == Err::<EscrowRecord, EscrowError>(EscrowError::InvalidStatus),
        expire_step(r, expiry_ledger, ledger) == Err::<EscrowRecord, EscrowError>(
            EscrowError::InvalidStatus,
        ),
        dispute_step(r, initiator) == Err::<EscrowRecord, EscrowError>(
            EscrowError::DisputeAlreadyOpen,
        ),
{
}

/// An escrow pays out what was locked exactly once: a release splits the
/// amount into a fee and a payout that add up to it, a refund returns it
/// whole, and after either neither can happen again.
pub proof fn lemma_single_payout(r: EscrowRecord)
    ensures
        release_step(r) matches Ok(n) ==> {
            &&& fee_split(r.amount, r.fee_bps) matches Ok((fee, payout)) && fee + payout == r.amount
            &&& release_step(n) is Err
            &&& refund_step(n) is Err
        },
        refund_step(r) matches Ok(n) ==> release_step(n) is Err && refund_step(n) is Err,
{
}

// ── The contract ───────────────────────────────────────────────────────────

/// The escrow contract's persistent state: escrow records by commission id,
/// and the re-entrancy lock.
pub struct EscrowContract {
    escrows: StringHashMap<EscrowRecord>,
    locked: bool,
}

impl View for EscrowContract {
    type V = Map<Seq<char>, EscrowRecord>;

    /// The stored escrows, by commission id.
    closed spec fn view(&self) -> Map<Seq<char>, EscrowRecord> {
        self.escrows@
    }
}

impl EscrowContract {
    /// Whether the re-entrancy lock is held.
    pub closed spec fn lock_held(&self) -> bool {
        self.locked
    }

    /// Every escrow is stored under its own commission id.
    pub open spec fn wf(&self) -> bool {
        forall|k: Seq<char>| #[trigger] self@.contains_key(k) ==> self@[k].commission_id@ == k
    }

    /// A contract with no escrows and the lock free.
    pub fn new() -> (c: EscrowContract)
        ensures
            c@ == Map::<Seq<char>, EscrowRecord>::empty(),
            !c.lock_held(),
            c.wf(),
    {
        EscrowContract { escrows: StringHashMap::new(), locked: false }
    }

    /// Whether an escrow is stored under `commission_id`.
    pub fn escrow_exists(&self, commission_id: &str) -> (b: bool)
        ensures
            b == self@.contains_key(commission_id@),
    {
        self.escrows.contains_key(commission_id)
    }

    /// The refusal that [`Self::create_escrow`] gives for `commission_id`,
    /// `client` and `amount`, if any, with the authorization it still
    /// demands: a host calls it first, so that it reads the fee and the token
    /// from the configuration contract only for a creation that goes ahead.
    pub fn check_create(&self, commission_id: &str, client: &Address, amount: i128) -> (r: Result<
        (),
        (Vec<Effect>, EscrowError),
    >)
        ensures
            amount <= 0 ==> refused(
                r,
                seq![Effect::RequireAuth { who: *client }],
                EscrowError::InvalidAmount,
            ),
            amount > 0 && self@.contains_key(commission_id@) ==> refused(
                r,
                seq![Effect::RequireAuth { who: *client }],
                EscrowError::AlreadyExists,
            ),
            amount > 0 && !self@.contains_key(commission_id@) ==> r is Ok,
    {
        if amount <= 0 {
            return Err((demand_auth(client), EscrowError::InvalidAmount));
        }
        if self.escrows.contains_key(commission_id) {
            return Err((demand_auth(client), EscrowError::AlreadyExists));
        }
        Ok(())
    }

    /// The refusal that [`Self::release_payment`] gives for the stored escrow
    /// `commission_id`, if any; it depends on the record alone, so a host
    /// checks it before reading the configuration contract.
    pub fn check_release(&self, commission_id: &str) -> (r: Result<(), EscrowError>)
        requires
            self@.contains_key(commission_id@),
        ensures
            match release_step(self@[commission_id@]) {
                Ok(_) => r is Ok,
                Err(e) => r == Err::<(), EscrowError>(e),
            },
    {
        let rec = self.escrows.get(commission_id).unwrap();
        if rec.status != CommissionStatus::Locked {
            return Err(EscrowError::InvalidStatus);
        }
        match calculate_fee_split(rec.amount, rec.fee_bps) {
            Ok(_) => Ok(()),
            Err(e) => Err(e),
        }
    }

    /// The refusal that [`Self::refund_client`] gives for the stored escrow
    /// `commission_id`, if any; a host checks it before reading the
    /// configuration contract.
    pub fn check_refund(&self, commission_id: &str) -> (r: Result<(), EscrowError>)
        requires
            self@.contains_key(commission_id@),
        ensures
            match refund_step(self@[commission_id@]) {
                Ok(_) => r is Ok,
                Err(e) => r == Err::<(), EscrowError>(e),
            },
    {
        let rec = self.escrows.get(commission_id).unwrap();
        if rec.status != CommissionStatus::Locked && rec.status != CommissionStatus::Disputed {
            return Err(EscrowError::InvalidStatus);
        }
        Ok(())
    }

    /// Locks `amount` of the USDC token `usdc` from `client` for the
    /// commission `commission_id`, to be paid to `artist`. The fee rate
    /// `fee_bps` is fixed at creation; `ledger` is the current ledger
    /// sequence.
    ///
    /// Needs `client`'s authorization, which is demanded before anything is
    /// checked: a refusal still carries the demand.
    pub fn create_escrow(
        &mut self,
        commission_id: String,
        client: Address,
        artist: Address,
        amount: i128,
        fee_bps: u32,
        usdc: Address,
        ledger: u32,
    ) -> (r: Result<Vec<Effect>, (Vec<Effect>, EscrowError)>)
        requires
            old(self).wf(),
        ensures
            final(self).wf(),
            amount <= 0 ==> refused(
                r,
                seq![Effect::RequireAuth { who: client }],
                EscrowError::InvalidAmount,
            ) && *final(self) == *old(self),
            amount > 0 && old(self)@.contains_key(commission_id@) ==> refused(
                r,
                seq![Effect::RequireAuth { who: client }],
                EscrowError::AlreadyExists,
            ) && *final(self) == *old(self),
            amount > 0 && !old(self)@.contains_key(commission_id@) ==> {
                &&& r is Ok
                &&& final(self)@ == old(self)@.insert(
                    commission_id@,
                    EscrowRecord {
                        commission_id,
                        client,
                        artist,
                        amount,
                        fee_bps,
                        status: CommissionStatus::Locked,
                        created_ledger: ledger,
                    },
                )
                &&& final(self).lock_held() == old(self).lock_held()
                &&& r->Ok_0@ == seq![
                    Effect::RequireAuth { who: client },
                    Effect::ExtendTtl { key: commission_id, ledgers: ESCROW_TTL_LEDGERS },
                    Effect::TransferToContract { token: usdc, from: client, amount },
                    Effect::Emit { event: Event::EscrowCreated { commission_id, amount } },
                ]
            },
    {
        if amount <= 0 {
            return Err((demand_auth(&client), EscrowError::InvalidAmount));
        }
        if self.escrows.contains_key(commission_id.as_str()) {
            return Err((demand_auth(&client), EscrowError::AlreadyExists));
        }
        let record = EscrowRecord {
            commission_id: commission_id.clone(),
            client: client.clone(),
            artist,
            amount,
            fee_bps,
            status: CommissionStatus::Locked,
            created_ledger: ledger,
        };
        self.escrows.insert(commission_id.clone(), record);
        let mut effects: Vec<Effect> = Vec::new();
        effects.push(Effect::RequireAuth { who: client.clone() });
        effects.push(Effect::ExtendTtl { key: commission_id.clone(), ledgers: ESCROW_TTL_LEDGERS });
        effects.push(
            Effect::TransferToContract { token: usdc, from: client, amount },
        );
        effects.push(Effect::Emit { event: Event::EscrowCreated { commission_id, amount } });
        Ok(effects)
    }

    /// Pays a locked escrow out: the payout to the artist and the fee to the
    /// platform wallet, both in USDC.
    ///
    /// Needs the platform admin's authorization.
    pub fn release_payment(&mut self, commission_id: &str, config: &ConfigBundle) -> (r: Result<
        Vec<Effect>,
        EscrowError,
    >)
        requires
            old(self).wf(),
            old(self)@.contains_key(commission_id@),
        ensures
            final(self).wf(),
            ({
                let rec = old(self)@[commission_id@];
                match release_step(rec) {
                    Err(e) => r == Err::<Vec<Effect>, EscrowError>(e) && *final(self) == *old(self),
                    Ok(next) => {
                        let (fee, payout) = fee_split(rec.amount, rec.fee_bps)->Ok_0;
                        &&& r is Ok
                        &&& final(self)@ == old(self)@.insert(commission_id@, next)
                        &&& final(self).lock_held() == old(self).lock_held()
                        &&& r->Ok_0@ == seq![
                            Effect::RequireAuth { who: config.admin },
                            Effect::TransferFromContract {
                                token: config.usdc,
                                to: rec.artist,
                                amount: payout,
                            },
                            Effect::TransferFromContract {
                                token: config.usdc,
                                to: config.platform_wallet,
                                amount: fee,
                            },
                            Effect::Emit {
                                event: Event::EscrowReleased {
                                    commission_id: rec.commission_id,
                                    payout,
                                    fee,
                                },
                            },
                        ]
                    },
                }
            }),
    {
        let rec = self.escrows.get(commission_id).unwrap().copy();
        if rec.status != CommissionStatus::Locked {
            return Err(EscrowError::InvalidStatus);
        }
        let (fee, payout) = match calculate_fee_split(rec.amount, rec.fee_bps) {
            Ok(split) => split,
            Err(e) => return Err(e),
        };
        let mut next = rec.copy();
        next.status = CommissionStatus::Released;
        self.escrows.insert(commission_id.to_owned(), next);
        let mut effects: Vec<Effect> = Vec::new();
        effects.push(Effect::RequireAuth { who: config.admin.clone() });
        effects.push(
            Effect::TransferFromContract {
                token: config.usdc.clone(),
                to: rec.artist.clone(),
                amount: payout,
            },
        );
        effects.push(
            Effect::TransferFromContract {
                token: config.usdc.clone(),
                to: config.platform_wallet.clone(),
                amount: fee,
            },
        );
        effects.push(
            Effect::Emit {
                event: Event::EscrowReleased { commission_id: rec.commission_id, payout, fee },
            },
        );
        Ok(effects)
    }

    /// Returns the whole escrowed amount to the client, from a locked or a
    /// disputed escrow.
    ///
    /// Needs the platform admin's authorization.
    pub fn refund_client(&mut self, commission_id: &str, config: &ConfigBundle) -> (r: Result<
        Vec<Effect>,
        EscrowError,
    >)
        requires
            old(self).wf(),
            old(self)@.contains_key(commission_id@),
        ensures
            final(self).wf(),
            ({
                let rec = old(self)@[commission_id@];
                match refund_step(rec) {
                    Err(e) => r == Err::<Vec<Effect>, EscrowError>(e) && *final(self) == *old(self),
                    Ok(next) => {
                        &&& r is Ok
                        &&& final(self)@ == old(self)@.insert(commission_id@, next)
                        &&& final(self).lock_held() == old(self).lock_held()
                        &&& r->Ok_0@ == seq![
                            Effect::RequireAuth { who: config.admin },
                            Effect::TransferFromContract {
                                token: config.usdc,
                                to: rec.client,
                                amount: rec.amount,
                            },
                            Effect::Emit {
                                event: Event::EscrowRefunded {
                                    commission_id: rec.commission_id,
                                    client: rec.client,
                                    amount: rec.amount,
                                },
                            },
                        ]
                    },
                }
            }),
    {
        let rec = self.escrows.get(commission_id).unwrap().copy();
        if rec.status != CommissionStatus::Locked && rec.status != CommissionStatus::Disputed {
            return Err(EscrowError::InvalidStatus);
        }
        let mut next = rec.copy();
        next.status = CommissionStatus::Refunded;
        self.escrows.insert(commission_id.to_owned(), next);
        let mut effects: Vec<Effect> = Vec::new();
        effects.push(Effect::RequireAuth { who: config.admin.clone() });
        effects.push(
            Effect::TransferFromContract {
                token: config.usdc.clone(),
                to: rec.client.clone(),
                amount: rec.amount,
            },
        );
        effects.push(
            Effect::Emit {
                event: Event::EscrowRefunded {
                    commission_id: rec.commission_id,
                    client: rec.client,
                    amount: rec.amount,
                },
            },
        );
        Ok(effects)
    }

    /// Marks a locked escrow expired once the current `ledger` has reached
    /// `expiry_ledger`.
    pub fn expire_escrow(&mut self, commission_id: &str, expiry_ledger: u32, ledger: u32) -> (r:
        Result<Vec<Effect>, EscrowError>)
        requires
            old(self).wf(),
            old(self)@.contains_key(commission_id@),
        ensures
            final(self).wf(),
            ({
                let rec = old(self)@[commission_id@];
                match expire_step(rec, expiry_ledger, ledger) {
                    Err(e) => r == Err::<Vec<Effect>, EscrowError>(e) && *final(self) == *old(self),
                    Ok(next) => {
                        &&& r is Ok
                        &&& final(self)@ == old(self)@.insert(commission_id@, next)
                        &&& final(self).lock_held() == old(self).lock_held()
                        &&& r->Ok_0@ == seq![
                            Effect::Emit {
                                event: Event::EscrowExpired {
                                    commission_id: rec.commission_id,
                                    expiry_ledger,
                                },
                            },
                        ]
                    },
                }
            }),
    {
        let rec = self.escrows.get(commission_id).unwrap().copy();
        if rec.status != CommissionStatus::Locked {
            return Err(EscrowError::InvalidStatus);
        }
        if ledger < expiry_ledger {
            return Err(EscrowError::NotExpired);
        }
        let mut next = rec.copy();
        next.status = CommissionStatus::Expired;
        self.escrows.insert(commission_id.to_owned(), next);
        let mut effects: Vec<Effect> = Vec::new();
        effects.push(
            Effect::Emit {
                event: Event::EscrowExpired { commission_id: rec.commission_id, expiry_ledger },
            },
        );
        Ok(effects)
    }

    /// Opens a dispute on a locked escrow. Only its client or its artist may
    /// do so.
    ///
    /// Needs `initiator`'s authorization, which is demanded before anything
    /// is checked: a refusal still carries the demand.
    pub fn open_dispute(&mut self, commission_id: &str, initiator: Address) -> (r: Result<
        Vec<Effect>,
        (Vec<Effect>, EscrowError),
    >)
        requires
            old(self).wf(),
            old(self)@.contains_key(commission_id@),
        ensures
            final(self).wf(),
            ({
                let rec = old(self)@[commission_id@];
                match dispute_step(rec, initiator) {
                    Err(e) => refused(r, seq![Effect::RequireAuth { who: initiator }], e)
                        && *final(self) == *old(self),
                    Ok(next) => {
                        &&& r is Ok
                        &&& final(self)@ == old(self)@.insert(commission_id@, next)
                        &&& final(self).lock_held() == old(self).lock_held()
                        &&& r->Ok_0@ == seq![
                            Effect::RequireAuth { who: initiator },
                            Effect::ExtendTtl {
                                key: rec.commission_id,
                                ledgers: ESCROW_TTL_LEDGERS,
                            },
                            Effect::Emit {
                                event: Event::EscrowDisputed {
                                    commission_id: rec.commission_id,
                                    initiator,
                                },
                            },
                        ]
                    },
                }
            }),
    {
        let rec = self.escrows.get(commission_id).unwrap().copy();
        if rec.status == CommissionStatus::Disputed {
            return Err((demand_auth(&initiator), EscrowError::DisputeAlreadyOpen));
        }
        if rec.status != CommissionStatus::Locked {
            return Err((demand_auth(&initiator), EscrowError::InvalidStatus));
        }
        if !(initiator == rec.client) && !(initiator == rec.artist) {
            return Err((demand_auth(&initiator), EscrowError::Unauthorized));
        }
        let mut next = rec.copy();
        next.status = CommissionStatus::Disputed;
        self.escrows.insert(commission_id.to_owned(), next);
        let mut effects: Vec<Effect> = Vec::new();
        effects.push(Effect::RequireAuth { who: initiator.clone() });
        effects.push(
            Effect::ExtendTtl { key: rec.commission_id.clone(), ledgers: ESCROW_TTL_LEDGERS },
        );
        effects.push(
            Effect::Emit {
                event: Event::EscrowDisputed { commission_id: rec.commission_id, initiator },
            },
        );
        Ok(effects)
    }

    /// The escrow stored under `commission_id`.
    pub fn get_escrow(&self, commission_id: &str) -> (r: Result<EscrowRecord, EscrowError>)
        ensures
            self@.contains_key(commission_id@) ==> r == Ok::<EscrowRecord, EscrowError>(
                self@[commission_id@],
            ),
            !self@.contains_key(commission_id@) ==> r == Err::<EscrowRecord, EscrowError>(
                EscrowError::NotFound,
            ),
    {
        match self.escrows.get(commission_id) {
            Some(rec) => Ok(rec.copy()),
            None => Err(EscrowError::NotFound),
        }
    }

    /// Stores `record` under its commission id, replacing what was stored
    /// there: how a host puts back a record it kept in its own storage.
    pub fn save_escrow(&mut self, record: EscrowRecord)
        requires
            old(self).wf(),
        ensures
            final(self).wf(),
            final(self)@ == old(self)@.insert(record.commission_id@, record),
            final(self).lock_held() == old(self).lock_held(),
    {
        let key = record.commission_id.clone();
        self.escrows.insert(key, record);
    }

    /// Whether the re-entrancy lock is held.
    pub fn is_locked(&self) -> (b: bool)
        ensures
            b == self.lock_held(),
    {
        self.locked
    }

    /// Takes the re-entrancy lock.
    pub fn set_locked(&mut self)
        ensures
            final(self).lock_held(),
            final(self)@ == old(self)@,
    {
        self.locked = true;
    }

    /// Releases the re-entrancy lock.
    pub fn clear_locked(&mut self)
        ensures
            !final(self).lock_held(),
            final(self)@ == old(self)@,
    {
        self.locked = false;
    }
}

} // verus!
