//! The platform configuration contract: the admin, the platform fee (at most
//! 10%), the wallet that collects it, and the USDC token; admin hand-over
//! takes two steps, a transfer and its acceptance by the new admin.
use vstd::prelude::*;
use crate::escrow::ConfigBundle;
use crate::host::{Address, Effect, Event};

verus! {

/// The highest platform fee, in basis points (10%).
pub const MAX_FEE_BPS: u32 = 1000;

/// The platform settings.
#[derive(Debug, PartialEq, Eq)]
pub struct PlatformConfig {
    pub admin: Address,
    pub fee_bps: u32,
    pub platform_wallet: Address,
    pub usdc_token: Address,
}

/// Display data of a fee token and the fee range it allows.
#[derive(Debug, PartialEq, Eq)]
pub struct FeeTokenMetadata {
    pub name: String,
    pub symbol: String,
    pub decimal: u32,
    pub min_fee_bps: u32,
    pub max_fee_bps: u32,
}

/// Why a configuration operation was refused.
#[derive(Clone, Copy, Debug, PartialEq, Eq, Structural)]
pub enum PlatformConfigError {
    NotInitialized,
    /// The fee is above [`MAX_FEE_BPS`].
    InvalidFeeBps,
    /// No admin transfer is pending.
    NoPendingAdmin,
}

impl PlatformConfig {
    /// A field-by-field copy.
    pub fn copy(&self) -> (r: PlatformConfig)
        ensures
            r == *self,
    {
        PlatformConfig {
            admin: self.admin.clone(),
            fee_bps: self.fee_bps,
            platform_wallet: self.platform_wallet.clone(),
            usdc_token: self.usdc_token.clone(),
        }
    }
}

/// The configuration contract's persistent state.
pub struct PlatformConfigContract {
    config: Option<PlatformConfig>,
    pending_admin: Option<Address>,
}

impl PlatformConfigContract {
    /// The settings, once initialized.
    pub closed spec fn config(&self) -> Option<PlatformConfig> {
        self.config
    }

    /// The address an admin transfer is waiting on, if any.
    pub closed spec fn pending_admin(&self) -> Option<Address> {
        self.pending_admin
    }

    /// The fee never exceeds the cap.
    pub open spec fn wf(&self) -> bool {
        self.config() matches Some(c) ==> c.fee_bps <= MAX_FEE_BPS
    }

    /// A contract that is not yet initialized.
    pub fn new() -> (c: PlatformConfigContract)
        ensures
            c.config() is None,
            c.pending_admin() is None,
            c.wf(),
    {
        PlatformConfigContract { config: None, pending_admin: None }
    }

    /// Whether [`Self::initialize`] may be called with `fee_bps`: the
    /// contract is not initialized yet and the fee is at most 10%. On any
    /// other input initialization fails the call, so a host checks this
    /// first.
    pub fn can_initialize(&self, fee_bps: u32) -> (b: bool)
        ensures
            b == (self.config() is None && fee_bps <= MAX_FEE_BPS),
    {
        self.config.is_none() && fee_bps <= MAX_FEE_BPS
    }

    /// Sets the platform settings, once; the fee may not exceed 10%.
    ///
    /// Needs `admin`'s authorization.
    pub fn initialize(
        &mut self,
        admin: Address,
        fee_bps: u32,
        platform_wallet: Address,
        usdc_token: Address,
    ) -> (effects: Vec<Effect>)
        requires
            old(self).config() is None,
            fee_bps <= MAX_FEE_BPS,
        ensures
            final(self).wf(),
            final(self).config() == Some(
                PlatformConfig { admin, fee_bps, platform_wallet, usdc_token },
            ),
            final(self).pending_admin() == old(self).pending_admin(),
            effects@ == seq![
                Effect::RequireAuth { who: admin },
                Effect::Emit { event: Event::ConfigInitialized { admin, usdc_token, fee_bps } },
            ],
    {
        let mut effects: Vec<Effect> = Vec::new();
        effects.push(Effect::RequireAuth { who: admin.clone() });
        effects.push(
            Effect::Emit {
                event: Event::ConfigInitialized {
                    admin: admin.clone(),
                    usdc_token: usdc_token.clone(),
                    fee_bps,
                },
            },
        );
        self.config = Some(PlatformConfig { admin, fee_bps, platform_wallet, usdc_token });
        effects
    }

    /// The platform settings.
    pub fn get_config(&self) -> (r: Result<PlatformConfig, PlatformConfigError>)
        ensures
            self.config() matches Some(c) ==> r == Ok::<PlatformConfig, PlatformConfigError>(c),
            self.config() is None ==> r == Err::<PlatformConfig, PlatformConfigError>(
                PlatformConfigError::NotInitialized,
            ),
    {
        match &self.config {
            Some(c) => Ok(c.copy()),
            None => Err(PlatformConfigError::NotInitialized),
        }
    }

    /// The settings the escrow contract reads: fee, token, admin and wallet.
    pub fn bundle(&self) -> (r: Result<ConfigBundle, PlatformConfigError>)
        ensures
            self.config() matches Some(c) ==> (r is Ok && r->Ok_0 == (ConfigBundle {
                fee_bps: c.fee_bps,
                usdc: c.usdc_token,
                admin: c.admin,
                platform_wallet: c.platform_wallet,
            })),
            self.config() is None ==> (r is Err && r->Err_0 == PlatformConfigError::NotInitialized),
    {
        match &self.config {
            Some(c) => Ok(
                ConfigBundle {
                    fee_bps: c.fee_bps,
                    usdc: c.usdc_token.clone(),
                    admin: c.admin.clone(),
                    platform_wallet: c.platform_wallet.clone(),
                },
            ),
            None => Err(PlatformConfigError::NotInitialized),
        }
    }

    /// Changes the platform fee; it may not exceed 10%.
    ///
    /// Needs the admin's authorization.
    pub fn set_fee_bps(&mut self, fee_bps: u32) -> (r: Result<Vec<Effect>, PlatformConfigError>)
        requires
            old(self).wf(),
        ensures
            final(self).wf(),
            old(self).config() is None ==> r == Err::<Vec<Effect>, PlatformConfigError>(
                PlatformConfigError::NotInitialized,
            ) && *final(self) == *old(self),
            old(self).config() is Some && fee_bps > MAX_FEE_BPS ==> r == Err::<
                Vec<Effect>,
                PlatformConfigError,
            >(PlatformConfigError::InvalidFeeBps) && *final(self) == *old(self),
            old(self).config() is Some && fee_bps <= MAX_FEE_BPS ==> {
                let c = old(self).config()->Some_0;
                &&& r is Ok
                &&& final(self).config() == Some(PlatformConfig { fee_bps, ..c })
                &&& final(self).pending_admin() == old(self).pending_admin()
                &&& r->Ok_0@ == seq![
                    Effect::RequireAuth { who: c.admin },
                    Effect::Emit {
                        event: Event::FeeBpsUpdated { old_fee_bps: c.fee_bps, new_fee_bps: fee_bps },
                    },
                ]
            },
    {
        let mut c = match &self.config {
            Some(c) => c.copy(),
            None => return Err(PlatformConfigError::NotInitialized),
        };
        if fee_bps > MAX_FEE_BPS {
            return Err(PlatformConfigError::InvalidFeeBps);
        }
        let mut effects: Vec<Effect> = Vec::new();
        effects.push(Effect::RequireAuth { who: c.admin.clone() });
        effects.push(
            Effect::Emit {
                event: Event::FeeBpsUpdated { old_fee_bps: c.fee_bps, new_fee_bps: fee_bps },
            },
        );
        c.fee_bps = fee_bps;
        self.config = Some(c);
        Ok(effects)
    }

    /// Changes the wallet that collects platform fees.
    ///
    /// Needs the admin's authorization.
    pub fn set_platform_wallet(&mut self, platform_wallet: Address) -> (r: Result<
        Vec<Effect>,
        PlatformConfigError,
    >)
        requires
            old(self).wf(),
        ensures
            final(self).wf(),
            old(self).config() is None ==> r == Err::<Vec<Effect>, PlatformConfigError>(
                PlatformConfigError::NotInitialized,
            ) && *final(self) == *old(self),
            old(self).config() is Some ==> {
                let c = old(self).config()->Some_0;
                &&& r is Ok
                &&& final(self).config() == Some(PlatformConfig { platform_wallet, ..c })
                &&& final(self).pending_admin() == old(self).pending_admin()
                &&& r->Ok_0@ == seq![Effect::RequireAuth { who: c.admin }]
            },
    {
        let mut c = match &self.config {
            Some(c) => c.copy(),
            None => return Err(PlatformConfigError::NotInitialized),
        };
        let mut effects: Vec<Effect> = Vec::new();
        effects.push(Effect::RequireAuth { who: c.admin.clone() });
        c.platform_wallet = platform_wallet;
        self.config = Some(c);
        Ok(effects)
    }

    /// Starts handing the admin role to `new_admin`, who must accept it.
    ///
    /// Needs the current admin's authorization.
    pub fn transfer_admin(&mut self, new_admin: Address) -> (r: Result<
        Vec<Effect>,
        PlatformConfigError,
    >)
        requires
            old(self).wf(),
        ensures
            final(self).wf(),
            old(self).config() is None ==> r == Err::<Vec<Effect>, PlatformConfigError>(
                PlatformConfigError::NotInitialized,
            ) && *final(self) == *old(self),
            old(self).config() is Some ==> {
                let c = old(self).config()->Some_0;
                &&& r is Ok
                &&& final(self).config() == old(self).config()
                &&& final(self).pending_admin() == Some(new_admin)
                &&& r->Ok_0@ == seq![
                    Effect::RequireAuth { who: c.admin },
                    Effect::Emit {
                        event: Event::AdminTransferInitiated {
                            current_admin: c.admin,
                            pending_admin: new_admin,
                        },
                    },
                ]
            },
    {
        let admin = match &self.config {
            Some(c) => c.admin.clone(),
            None => return Err(PlatformConfigError::NotInitialized),
        };
        let mut effects: Vec<Effect> = Vec::new();
        effects.push(Effect::RequireAuth { who: admin.clone() });
        effects.push(
            Effect::Emit {
                event: Event::AdminTransferInitiated {
                    current_admin: admin,
                    pending_admin: new_admin.clone(),
                },
            },
        );
        self.pending_admin = Some(new_admin);
        Ok(effects)
    }

    /// The pending admin accepts the role and becomes the admin.
    ///
    /// Needs the pending admin's authorization.
    pub fn accept_admin(&mut self) -> (r: Result<Vec<Effect>, PlatformConfigError>)
        requires
            old(self).wf(),
        ensures
            final(self).wf(),
            old(self).config() is None ==> r == Err::<Vec<Effect>, PlatformConfigError>(
                PlatformConfigError::NotInitialized,
            ) && *final(self) == *old(self),
            old(self).config() is Some && old(self).pending_admin() is None ==> r == Err::<
                Vec<Effect>,
                PlatformConfigError,
            >(PlatformConfigError::NoPendingAdmin) && *final(self) == *old(self),
            old(self).config() is Some && old(self).pending_admin() is Some ==> {
                let c = old(self).config()->Some_0;
                let p = old(self).pending_admin()->Some_0;
                &&& r is Ok
                &&& final(self).config() == Some(PlatformConfig { admin: p, ..c })
                &&& final(self).pending_admin() is None
                &&& r->Ok_0@ == seq![
                    Effect::RequireAuth { who: p },
                    Effect::Emit {
                        event: Event::AdminTransferCompleted { old_admin: c.admin, new_admin: p },
                    },
                ]
            },
    {
        let mut c = match &self.config {
            Some(c) => c.copy(),
            None => return Err(PlatformConfigError::NotInitialized),
        };
        let pending = match &self.pending_admin {
            Some(p) => p.clone(),
            None => return Err(PlatformConfigError::NoPendingAdmin),
        };
        let mut effects: Vec<Effect> = Vec::new();
        effects.push(Effect::RequireAuth { who: pending.clone() });
        effects.push(
            Effect::Emit {
                event: Event::AdminTransferCompleted {
                    old_admin: c.admin.clone(),
                    new_admin: pending.clone(),
                },
            },
        );
        c.admin = pending;
        self.config = Some(c);
        self.pending_admin = None;
        Ok(effects)
    }
}

} // verus!
