//! Network settings and the application configuration built from them or
//! from the environment.
use vstd::prelude::*;

verus! {

/// Why the configuration could not be built.
#[derive(Debug, Clone, PartialEq, Eq)]
pub enum ConfigError {
    /// A required environment variable is not set.
    MissingVar(String),
}

/// The endpoints and passphrase of a Stellar network.
#[derive(Debug, Clone)]
pub struct NetworkConfig {
    pub name: &'static str,
    pub horizon_url: &'static str,
    pub soroban_rpc_url: &'static str,
    pub network_passphrase: &'static str,
}

/// The public test network.
pub fn testnet() -> (n: NetworkConfig)
    ensures
        n.name@ == "testnet"@,
        n.horizon_url@ == "https://horizon-testnet.stellar.org"@,
        n.soroban_rpc_url@ == "https://soroban-testnet.stellar.org"@,
        n.network_passphrase@ == "Test SDF Network ; September 2015"@,
{
    NetworkConfig {
        name: "testnet",
        horizon_url: "https://horizon-testnet.stellar.org",
        soroban_rpc_url: "https://soroban-testnet.stellar.org",
        network_passphrase: "Test SDF Network ; September 2015",
    }
}

/// The public main network.
pub fn mainnet() -> (n: NetworkConfig)
    ensures
        n.name@ == "mainnet"@,
        n.horizon_url@ == "https://horizon.stellar.org"@,
        n.soroban_rpc_url@ == "https://rpc.mainnet.soroban.stellar.org"@,
        n.network_passphrase@ == "Public Global Stellar Network ; September 2015"@,
{
    NetworkConfig {
        name: "mainnet",
        horizon_url: "https://horizon.stellar.org",
        soroban_rpc_url: "https://rpc.mainnet.soroban.stellar.org",
        network_passphrase: "Public Global Stellar Network ; September 2015",
    }
}

/// The application configuration.
#[derive(Debug)]
pub struct Config {
    pub stellar_network: String,
    pub stellar_platform_secret: String,
    pub horizon_url: String,
    pub soroban_rpc_url: String,
    pub soroban_network_passphrase: String,
}

/// The environment variables the configuration needs, in the order in
/// which they are checked.
pub open spec fn required_vars() -> Seq<Seq<char>> {
    seq![
        "STELLAR_NETWORK"@,
        "STELLAR_PLATFORM_SECRET"@,
        "HORIZON_URL"@,
        "SOROBAN_RPC_URL"@,
        "SOROBAN_NETWORK_PASSPHRASE"@,
    ]
}

/// Takes a required variable's value, or names it as missing.
fn require(value: Option<String>, key: &str) -> (r: Result<String, ConfigError>)
    ensures
        value matches Some(v) ==> r == Ok::<String, ConfigError>(v),
        value is None ==> (r matches Err(ConfigError::MissingVar(k)) && k@ == key@),
{
    match value {
        Some(v) => Ok(v),
        None => Err(ConfigError::MissingVar(key.to_owned())),
    }
}

impl Config {
    /// Builds the configuration from the values of the required variables
    /// (`None` for one that is not set), naming the first one missing.
    pub fn from_values(
        stellar_network: Option<String>,
        stellar_platform_secret: Option<String>,
        horizon_url: Option<String>,
        soroban_rpc_url: Option<String>,
        soroban_network_passphrase: Option<String>,
    ) -> (r: Result<Config, ConfigError>)
        ensures
            ({
                let vals = seq![
                    stellar_network,
                    stellar_platform_secret,
                    horizon_url,
                    soroban_rpc_url,
                    soroban_network_passphrase,
                ];
                &&& (forall|i: int| 0 <= i < 5 ==> vals[i] is Some) ==> r == Ok::<
                    Config,
                    ConfigError,
                >(
                    Config {
                        stellar_network: stellar_network->Some_0,
                        stellar_platform_secret: stellar_platform_secret->Some_0,
                        horizon_url: horizon_url->Some_0,
                        soroban_rpc_url: soroban_rpc_url->Some_0,
                        soroban_network_passphrase: soroban_network_passphrase->Some_0,
                    },
                )
                &&& forall|i: int|
                    0 <= i < 5 && vals[i] is None && (forall|j: int| 0 <= j < i ==> vals[j] is Some)
                        ==> (r matches Err(ConfigError::MissingVar(k)) && k@ == required_vars()[i])
            }),
    {
        let stellar_network = require(stellar_network, "STELLAR_NETWORK")?;
        let stellar_platform_secret = require(stellar_platform_secret, "STELLAR_PLATFORM_SECRET")?;
        let horizon_url = require(horizon_url, "HORIZON_URL")?;
        let soroban_rpc_url = require(soroban_rpc_url, "SOROBAN_RPC_URL")?;
        let soroban_network_passphrase = require(
            soroban_network_passphrase,
            "SOROBAN_NETWORK_PASSPHRASE",
        )?;
        Ok(
            Config {
                stellar_network,
                stellar_platform_secret,
                horizon_url,
                soroban_rpc_url,
                soroban_network_passphrase,
            },
        )
    }

    /// Builds the configuration of a known network with the platform's
    /// secret key.
    pub fn from_network(network: &NetworkConfig, secret: &str) -> (c: Config)
        ensures
            c.stellar_network@ == network.name@,
            c.stellar_platform_secret@ == secret@,
            c.horizon_url@ == network.horizon_url@,
            c.soroban_rpc_url@ == network.soroban_rpc_url@,
            c.soroban_network_passphrase@ == network.network_passphrase@,
    {
        Config {
            stellar_network: network.name.to_owned(),
            stellar_platform_secret: secret.to_owned(),
            horizon_url: network.horizon_url.to_owned(),
            soroban_rpc_url: network.soroban_rpc_url.to_owned(),
            soroban_network_passphrase: network.network_passphrase.to_owned(),
        }
    }
}

} // verus!
