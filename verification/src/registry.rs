//! Asset registries of the platform: per-asset fee overrides, the list of
//! supported assets, and assets bridged from other chains.
use vstd::prelude::*;
use vstd::hash_map::StringHashMap;
use crate::host::{Address, Effect};

verus! {

/// The fee rate used when neither an override nor a default is set.
pub const FALLBACK_FEE_RATE: u32 = 250;

// ── Platform fee override per asset ────────────────────────────────────────

/// A fee rate that replaces the default for one asset.
#[derive(Debug, PartialEq, Eq)]
pub struct AssetFeeOverride {
    pub asset_id: String,
    pub fee_rate: u32,
    pub enabled: bool,
    pub set_by: Address,
}

impl AssetFeeOverride {
    /// A field-by-field copy.
    pub fn copy(&self) -> (r: AssetFeeOverride)
        ensures
            r == *self,
    {
        AssetFeeOverride {
            asset_id: self.asset_id.clone(),
            fee_rate: self.fee_rate,
            enabled: self.enabled,
            set_by: self.set_by.clone(),
        }
    }
}

/// The fee rate for an asset: its enabled override, else the default, else
/// [`FALLBACK_FEE_RATE`].
pub open spec fn fee_for(
    overrides: Map<Seq<char>, AssetFeeOverride>,
    default_fee: Option<u32>,
    asset_id: Seq<char>,
) -> u32 {
    if overrides.contains_key(asset_id) && overrides[asset_id].enabled {
        overrides[asset_id].fee_rate
    } else {
        match default_fee {
            Some(f) => f,
            None => FALLBACK_FEE_RATE,
        }
    }
}

/// The fee override contract's persistent state.
pub struct PlatformFeeOverrideContract {
    default_fee: Option<u32>,
    overrides: StringHashMap<AssetFeeOverride>,
}

impl PlatformFeeOverrideContract {
    /// The default fee rate, once set.
    pub closed spec fn default_fee(&self) -> Option<u32> {
        self.default_fee
    }

    /// The overrides, by asset id.
    pub closed spec fn overrides(&self) -> Map<Seq<char>, AssetFeeOverride> {
        self.overrides@
    }

    /// A contract with no default and no override.
    pub fn new() -> (c: PlatformFeeOverrideContract)
        ensures
            c.default_fee() is None,
            c.overrides() == Map::<Seq<char>, AssetFeeOverride>::empty(),
    {
        PlatformFeeOverrideContract { default_fee: None, overrides: StringHashMap::new() }
    }

    /// Sets the fee rate of assets without an override.
    ///
    /// Needs `admin`'s authorization.
    pub fn set_default_fee(&mut self, admin: Address, fee_rate: u32) -> (effects: Vec<Effect>)
        ensures
            final(self).default_fee() == Some(fee_rate),
            final(self).overrides() == old(self).overrides(),
            effects@ == seq![Effect::RequireAuth { who: admin }],
    {
        self.default_fee = Some(fee_rate);
        let mut effects: Vec<Effect> = Vec::new();
        effects.push(Effect::RequireAuth { who: admin });
        effects
    }

    /// Sets an enabled fee override for `asset_id`, replacing any earlier one.
    ///
    /// Needs `admin`'s authorization.
    pub fn set_asset_fee(&mut self, admin: Address, asset_id: String, fee_rate: u32) -> (r: (
        AssetFeeOverride,
        Vec<Effect>,
    ))
        ensures
            r.0 == (AssetFeeOverride { asset_id, fee_rate, enabled: true, set_by: admin }),
            final(self).overrides() == old(self).overrides().insert(asset_id@, r.0),
            final(self).default_fee() == old(self).default_fee(),
            r.1@ == seq![Effect::RequireAuth { who: admin }],
    {
        let entry = AssetFeeOverride {
            asset_id: asset_id.clone(),
            fee_rate,
            enabled: true,
            set_by: admin.clone(),
        };
        self.overrides.insert(asset_id, entry.copy());
        let mut effects: Vec<Effect> = Vec::new();
        effects.push(Effect::RequireAuth { who: admin });
        (entry, effects)
    }

    /// The fee rate charged on `asset_id`.
    pub fn get_fee_for_asset(&self, asset_id: &str) -> (fee: u32)
        ensures
            fee == fee_for(self.overrides(), self.default_fee(), asset_id@),
    {
        if let Some(o) = self.overrides.get(asset_id) {
            if o.enabled {
                return o.fee_rate;
            }
        }
        match self.default_fee {
            Some(f) => f,
            None => FALLBACK_FEE_RATE,
        }
    }
}

/// An override wins over the default for its asset only: after
/// `set_asset_fee(a, rate)`, asset `a` is charged `rate` and every other
/// asset is charged what it was charged before.
pub proof fn lemma_override_scoped_to_asset(
    overrides: Map<Seq<char>, AssetFeeOverride>,
    default_fee: Option<u32>,
    entry: AssetFeeOverride,
    other: Seq<char>,
)
    requires
        entry.enabled,
        other != entry.asset_id@,
    ensures
        fee_for(overrides.insert(entry.asset_id@, entry), default_fee, entry.asset_id@)
            == entry.fee_rate,
        fee_for(overrides.insert(entry.asset_id@, entry), default_fee, other) == fee_for(
            overrides,
            default_fee,
            other,
        ),
{
}

// ── Supported assets ───────────────────────────────────────────────────────

/// An asset that the platform accepts while active.
#[derive(Debug, PartialEq, Eq)]
pub struct SupportedAsset {
    pub asset_id: String,
    pub symbol: String,
    pub decimals: u32,
    pub active: bool,
}

impl SupportedAsset {
    /// A field-by-field copy.
    pub fn copy(&self) -> (r: SupportedAsset)
        ensures
            r == *self,
    {
        SupportedAsset {
            asset_id: self.asset_id.clone(),
            symbol: self.symbol.clone(),
            decimals: self.decimals,
            active: self.active,
        }
    }
}

/// The supported-assets contract's persistent state.
pub struct SupportedAssetsContract {
    assets: StringHashMap<SupportedAsset>,
}

impl View for SupportedAssetsContract {
    type V = Map<Seq<char>, SupportedAsset>;

    /// The listed assets, by asset id.
    closed spec fn view(&self) -> Map<Seq<char>, SupportedAsset> {
        self.assets@
    }
}

impl SupportedAssetsContract {
    /// A contract with no asset listed.
    pub fn new() -> (c: SupportedAssetsContract)
        ensures
            c@ == Map::<Seq<char>, SupportedAsset>::empty(),
    {
        SupportedAssetsContract { assets: StringHashMap::new() }
    }

    /// Lists `asset_id` as active, replacing any earlier listing.
    ///
    /// Needs `admin`'s authorization.
    pub fn add_asset(&mut self, admin: Address, asset_id: String, symbol: String, decimals: u32) -> (r:
        (SupportedAsset, Vec<Effect>))
        ensures
            r.0 == (SupportedAsset { asset_id, symbol, decimals, active: true }),
            final(self)@ == old(self)@.insert(asset_id@, r.0),
            r.1@ == seq![Effect::RequireAuth { who: admin }],
    {
        let asset = SupportedAsset { asset_id: asset_id.clone(), symbol, decimals, active: true };
        self.assets.insert(asset_id, asset.copy());
        let mut effects: Vec<Effect> = Vec::new();
        effects.push(Effect::RequireAuth { who: admin });
        (asset, effects)
    }

    /// Whether `asset_id` is listed and active.
    pub fn is_supported(&self, asset_id: &str) -> (b: bool)
        ensures
            b == (self@.contains_key(asset_id@) && self@[asset_id@].active),
    {
        match self.assets.get(asset_id) {
            Some(a) => a.active,
            None => false,
        }
    }

    /// Deactivates a listed asset, keeping its listing.
    ///
    /// Needs `admin`'s authorization.
    pub fn deactivate_asset(&mut self, admin: Address, asset_id: &str) -> (effects: Vec<Effect>)
        requires
            old(self)@.contains_key(asset_id@),
        ensures
            final(self)@ == old(self)@.insert(
                asset_id@,
                SupportedAsset { active: false, ..old(self)@[asset_id@] },
            ),
            effects@ == seq![Effect::RequireAuth { who: admin }],
    {
        let mut asset = self.assets.get(asset_id).unwrap().copy();
        asset.active = false;
        self.assets.insert(asset_id.to_owned(), asset);
        let mut effects: Vec<Effect> = Vec::new();
        effects.push(Effect::RequireAuth { who: admin });
        effects
    }
}

// ── Multi-chain assets ─────────────────────────────────────────────────────

/// A chain that assets can come from.
#[derive(Clone, Copy, Debug, PartialEq, Eq, Structural)]
pub enum Chain {
    Stellar,
    Ethereum,
    Polygon,
    BinanceSmartChain,
}

/// An asset of some chain, known to the platform by its symbol.
#[derive(Debug, PartialEq, Eq)]
pub struct MultiChainAsset {
    pub asset_id: String,
    pub chain: Chain,
    pub contract_address: String,
    pub decimals: u32,
    pub is_active: bool,
}

impl MultiChainAsset {
    /// A field-by-field copy.
    pub fn copy(&self) -> (r: MultiChainAsset)
        ensures
            r == *self,
    {
        MultiChainAsset {
            asset_id: self.asset_id.clone(),
            chain: self.chain,
            contract_address: self.contract_address.clone(),
            decimals: self.decimals,
            is_active: self.is_active,
        }
    }
}

/// The multi-chain asset contract's persistent state.
pub struct MultiChainAssetContract {
    assets: StringHashMap<MultiChainAsset>,
}

impl View for MultiChainAssetContract {
    type V = Map<Seq<char>, MultiChainAsset>;

    /// The registered assets, by asset id.
    closed spec fn view(&self) -> Map<Seq<char>, MultiChainAsset> {
        self.assets@
    }
}

impl MultiChainAssetContract {
    /// A contract with no asset registered.
    pub fn new() -> (c: MultiChainAssetContract)
        ensures
            c@ == Map::<Seq<char>, MultiChainAsset>::empty(),
    {
        MultiChainAssetContract { assets: StringHashMap::new() }
    }

    /// Registers `asset_id` as an active asset of `chain`, replacing any
    /// earlier registration.
    pub fn register_asset(
        &mut self,
        asset_id: String,
        chain: Chain,
        contract_address: String,
        decimals: u32,
    ) -> (asset: MultiChainAsset)
        ensures
            asset == (MultiChainAsset {
                asset_id,
                chain,
                contract_address,
                decimals,
                is_active: true,
            }),
            final(self)@ == old(self)@.insert(asset_id@, asset),
    {
        let asset = MultiChainAsset {
            asset_id: asset_id.clone(),
            chain,
            contract_address,
            decimals,
            is_active: true,
        };
        self.assets.insert(asset_id, asset.copy());
        asset
    }

    /// The asset registered as `asset_id`, if any.
    pub fn get_asset(&self, asset_id: &str) -> (r: Option<MultiChainAsset>)
        ensures
            self@.contains_key(asset_id@) ==> r == Some(self@[asset_id@]),
            !self@.contains_key(asset_id@) ==> r is None,
    {
        match self.assets.get(asset_id) {
            Some(a) => Some(a.copy()),
            None => None,
        }
    }
}

/// The fee charged on an asset: its enabled override's rate; else the
/// default the admin set, whatever its value (zero included); else
/// [`FALLBACK_FEE_RATE`].
pub proof fn lemma_fee_resolution(
    overrides: Map<Seq<char>, AssetFeeOverride>,
    default_fee: Option<u32>,
    asset_id: Seq<char>,
    d: u32,
)
    ensures
        overrides.contains_key(asset_id) && overrides[asset_id].enabled ==> fee_for(
            overrides,
            default_fee,
            asset_id,
        ) == overrides[asset_id].fee_rate,
        !(overrides.contains_key(asset_id) && overrides[asset_id].enabled) ==> fee_for(
            overrides,
            Some(d),
            asset_id,
        ) == d,
        !(overrides.contains_key(asset_id) && overrides[asset_id].enabled) ==> fee_for(
            overrides,
            None,
            asset_id,
        ) == 250,
{
}

} // verus!
