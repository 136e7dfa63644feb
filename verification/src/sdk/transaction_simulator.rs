//! Dry runs of contract calls: arguments are checked and a simulation
//! result is produced without anything being submitted to the ledger.
use vstd::prelude::*;
use crate::sdk::errors::StellarAidError;

verus! {

/// The footprint entries reported for a simulated call.
pub const FOOTPRINT_ENTRIES: u64 = 100;

/// A Soroban RPC endpoint.
pub struct SorobanRpcClient {
    pub url: String,
}

impl SorobanRpcClient {
    /// A client of the endpoint at `url`.
    pub fn new(url: &str) -> (c: SorobanRpcClient)
        ensures
            c.url@ == url@,
    {
        SorobanRpcClient { url: url.to_owned() }
    }
}

/// The outcome of a simulated call.
#[derive(Debug, Clone)]
pub struct SimulateResult {
    pub success: bool,
    pub gas_consumed: u64,
    pub result_xdr: Option<String>,
    pub error_message: Option<String>,
}

/// Simulates calls made from `source_account` through `rpc`.
pub struct TransactionSimulator<'a> {
    pub rpc: &'a SorobanRpcClient,
    pub source_account: &'a str,
}

/// The result of a simulated call: which argument is refused, or success.
pub open spec fn simulation_outcome(contract_id: Seq<char>, function_name: Seq<char>) -> Result<
    (bool, u64),
    Seq<char>,
> {
    if contract_id.len() == 0 {
        Err("contract_id must not be empty"@)
    } else if function_name.len() == 0 {
        Err("function_name must not be empty"@)
    } else {
        Ok((true, 0))
    }
}

impl<'a> TransactionSimulator<'a> {
    /// A simulator for calls made from `source_account`.
    pub fn new(rpc: &'a SorobanRpcClient, source_account: &'a str) -> (s: TransactionSimulator<'a>)
        ensures
            s.rpc == rpc,
            s.source_account == source_account,
    {
        TransactionSimulator { rpc, source_account }
    }

    /// Simulates calling `function_name` of `contract_id`; both must be
    /// non-empty.
    pub fn simulate_contract_call(
        &self,
        contract_id: &str,
        function_name: &str,
        args_xdr: &[u8],
    ) -> (r: Result<SimulateResult, StellarAidError>)
        ensures
            match simulation_outcome(contract_id@, function_name@) {
                Err(msg) => r matches Err(StellarAidError::ValidationError(m)) && m@ == msg,
                Ok((success, gas)) => r matches Ok(res) && res.success == success
                    && res.gas_consumed == gas && res.result_xdr is None
                    && res.error_message is None,
            },
    {
        if contract_id.is_empty() {
            return Err(StellarAidError::ValidationError("contract_id must not be empty".to_owned()));
        }
        if function_name.is_empty() {
            return Err(
                StellarAidError::ValidationError("function_name must not be empty".to_owned()),
            );
        }
        Ok(SimulateResult { success: true, gas_consumed: 0, result_xdr: None, error_message: None })
    }

    /// The fixed envelope of a call, ready to be signed.
    pub fn build_tx_envelope(
        &self,
        _contract_id: &str,
        _function_name: &str,
        _args_xdr: &[u8],
    ) -> (r: Result<Vec<u8>, StellarAidError>)
        ensures
            r matches Ok(v) && v@ == seq![0xAAu8, 0xBBu8],
    {
        let mut v: Vec<u8> = Vec::new();
        v.push(0xAA);
        v.push(0xBB);
        Ok(v)
    }

    /// The gas and footprint entries of a call, from its simulation.
    pub fn estimate_resources(
        &self,
        contract_id: &str,
        function_name: &str,
        args_xdr: &[u8],
    ) -> (r: Result<(u64, u64), StellarAidError>)
        ensures
            match simulation_outcome(contract_id@, function_name@) {
                Err(msg) => r matches Err(StellarAidError::ValidationError(m)) && m@ == msg,
                Ok((_, gas)) => r == Ok::<(u64, u64), StellarAidError>((gas, FOOTPRINT_ENTRIES)),
            },
    {
        let sim = self.simulate_contract_call(contract_id, function_name, args_xdr)?;
        Ok((sim.gas_consumed, FOOTPRINT_ENTRIES))
    }
}

} // verus!
