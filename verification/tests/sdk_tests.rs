use stellar_aid::sdk::config::{mainnet, testnet, Config, ConfigError};
use stellar_aid::sdk::errors::StellarAidError;
use stellar_aid::sdk::transaction_simulator::{SorobanRpcClient, TransactionSimulator};
use stellar_aid::sdk::wallet::{Wallet, WalletConnectionState};

#[test]
fn test_simulator_rejects_empty_contract_id() {
    let rpc = SorobanRpcClient::new("https://example.com");
    let sim = TransactionSimulator::new(&rpc, "GABCD...");
    let result = sim.simulate_contract_call("", "donate", &[]);
    assert!(result.is_err());
}

#[test]
fn test_simulator_rejects_empty_function_name() {
    let rpc = SorobanRpcClient::new("https://example.com");
    let sim = TransactionSimulator::new(&rpc, "GABCD...");
    let result = sim.simulate_contract_call("C...", "", &[]);
    assert!(result.is_err());
}

#[test]
fn test_build_tx_envelope_returns_bytes() {
    let rpc = SorobanRpcClient::new("https://example.com");
    let sim = TransactionSimulator::new(&rpc, "GABCD...");
    let result = sim.build_tx_envelope("C...", "donate", &[0x01, 0x02]);
    assert!(result.is_ok());
    assert!(!result.unwrap().is_empty());
}

#[test]
fn test_estimate_resources_returns_gas_and_footprint() {
    let rpc = SorobanRpcClient::new("https://example.com");
    let sim = TransactionSimulator::new(&rpc, "GABCD...");
    let result = sim.estimate_resources("C...", "donate", &[]);
    assert!(result.is_ok());
    let (gas, footprint) = result.unwrap();
    assert_eq!(gas, 0);
    assert_eq!(footprint, 100);
}

#[test]
fn test_wallet_starts_disconnected() {
    let w = Wallet::new();
    assert_eq!(w.state(), &WalletConnectionState::Disconnected);
}

#[test]
fn test_connect_returns_error_on_non_wasm() {
    let mut w = Wallet::new();
    let result = w.connect();
    assert!(result.is_err());
    assert!(matches!(w.state(), WalletConnectionState::Error { .. }));
}

#[test]
fn test_disconnect_resets_state() {
    let mut w = Wallet::new();
    let _ = w.connect();
    w.disconnect();
    assert_eq!(w.state(), &WalletConnectionState::Disconnected);
}

#[test]
fn test_public_key_returns_error_when_disconnected() {
    let w = Wallet::new();
    let result = w.public_key();
    assert!(result.is_err());
}

#[test]
fn simulator_messages_and_result() {
    let rpc = SorobanRpcClient::new("https://example.com");
    let sim = TransactionSimulator::new(&rpc, "GABCD");
    assert_eq!(
        sim.simulate_contract_call("", "", &[]).unwrap_err(),
        StellarAidError::ValidationError("contract_id must not be empty".to_string())
    );
    assert_eq!(
        sim.estimate_resources("C1", "", &[]).unwrap_err(),
        StellarAidError::ValidationError("function_name must not be empty".to_string())
    );
    let ok = sim.simulate_contract_call("C1", "donate", &[7]).unwrap();
    assert!(ok.success);
    assert_eq!(ok.gas_consumed, 0);
    assert!(ok.result_xdr.is_none() && ok.error_message.is_none());
    assert_eq!(sim.build_tx_envelope("C1", "donate", &[]).unwrap(), vec![0xAA, 0xBB]);
}

#[test]
fn wallet_error_messages() {
    let mut w = Wallet::default();
    assert_eq!(
        w.public_key().unwrap_err(),
        StellarAidError::WalletConnection("wallet is disconnected".to_string())
    );
    assert_eq!(
        w.connect().unwrap_err(),
        StellarAidError::WalletConnection("not a wasm target".to_string())
    );
    assert_eq!(
        w.public_key().unwrap_err(),
        StellarAidError::WalletConnection(
            "previous error: wallet connection is only available in a browser (wasm32) environment"
                .to_string()
        )
    );
}

#[test]
fn network_presets() {
    let t = testnet();
    assert_eq!(t.name, "testnet");
    assert_eq!(t.horizon_url, "https://horizon-testnet.stellar.org");
    assert_eq!(t.network_passphrase, "Test SDF Network ; September 2015");
    let m = mainnet();
    assert_eq!(m.soroban_rpc_url, "https://rpc.mainnet.soroban.stellar.org");
    let c = Config::from_network(&m, "SSECRET");
    assert_eq!(c.stellar_network, "mainnet");
    assert_eq!(c.stellar_platform_secret, "SSECRET");
    assert_eq!(c.horizon_url, "https://horizon.stellar.org");
    assert_eq!(c.soroban_network_passphrase, "Public Global Stellar Network ; September 2015");
}

#[test]
fn config_names_first_missing_variable() {
    let s = |v: &str| Some(v.to_string());
    let err = Config::from_values(s("testnet"), None, None, s("rpc"), s("pass")).unwrap_err();
    assert_eq!(err, ConfigError::MissingVar("STELLAR_PLATFORM_SECRET".to_string()));
    let err = Config::from_values(None, None, None, None, None).unwrap_err();
    assert_eq!(err, ConfigError::MissingVar("STELLAR_NETWORK".to_string()));
    let err = Config::from_values(s("a"), s("b"), s("c"), s("d"), None).unwrap_err();
    assert_eq!(err, ConfigError::MissingVar("SOROBAN_NETWORK_PASSPHRASE".to_string()));
    let c = Config::from_values(s("a"), s("b"), s("c"), s("d"), s("e")).unwrap();
    assert_eq!(c.horizon_url, "c");
    assert_eq!(c.soroban_rpc_url, "d");
}
