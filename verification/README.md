# stellar_aid

The verified core of the StellarAid platform: the Soroban contracts'
decision logic (escrow, commission agreements, dispute arbitration,
platform configuration, asset registries and community contracts), the
client SDK's configuration, wallet and simulator logic, and the worker's
donation verification and webhook routing, written in Verus with contracts
that the verifier proves.

- `src/` is the library. Each contract is a state type whose operations
  return the list of host effects (authorizations, token transfers, TTL
  extensions, events, cross-contract calls) that the Soroban host must
  perform; `src/host.rs` defines them.
- `tests/` runs the library on concrete values.
- `app/` holds the programs around it: the Soroban entry points that load
  state from ledger storage, call the library and perform its effects; the
  worker's HTTP and Horizon calls; loading the SDK configuration from the
  environment; and talent matching, which ranks by floating-point scores.
