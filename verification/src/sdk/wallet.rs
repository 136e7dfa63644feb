//! The wallet connection. Wallet extensions are reachable only from a
//! browser, so on every other target connecting fails and leaves the wallet
//! in the error state.
use vstd::prelude::*;
use vstd::string::StringExecFns;
use crate::sdk::errors::StellarAidError;

verus! {

/// Where the wallet connection stands.
#[derive(Clone, Debug, PartialEq)]
pub enum WalletConnectionState {
    Disconnected,
    Connecting,
    Connected { public_key: String },
    Error { message: String },
}

/// A wallet connection.
pub struct Wallet {
    state: WalletConnectionState,
}

/// The message recorded when connecting outside a browser.
pub open spec fn not_in_browser_text() -> Seq<char> {
    "wallet connection is only available in a browser (wasm32) environment"@
}

impl View for Wallet {
    type V = WalletConnectionState;

    /// The connection state.
    closed spec fn view(&self) -> WalletConnectionState {
        self.state
    }
}

impl Wallet {
    /// A disconnected wallet.
    pub fn new() -> (w: Wallet)
        ensures
            w@ == WalletConnectionState::Disconnected,
    {
        Wallet { state: WalletConnectionState::Disconnected }
    }

    /// The connection state.
    pub fn state(&self) -> (s: &WalletConnectionState)
        ensures
            *s == self@,
    {
        &self.state
    }

    /// Tries to connect to a browser wallet. Outside a browser this fails
    /// and records the reason in the state.
    pub fn connect(&mut self) -> (r: Result<&str, StellarAidError>)
        ensures
            final(self)@ matches WalletConnectionState::Error { message } && message@
                == not_in_browser_text(),
            r matches Err(StellarAidError::WalletConnection(m)) && m@ == "not a wasm target"@,
    {
        self.state = WalletConnectionState::Error {
            message: "wallet connection is only available in a browser (wasm32) environment".to_owned(),
        };
        Err(StellarAidError::WalletConnection("not a wasm target".to_owned()))
    }

    /// Drops the connection.
    pub fn disconnect(&mut self)
        ensures
            final(self)@ == WalletConnectionState::Disconnected,
    {
        self.state = WalletConnectionState::Disconnected;
    }

    /// The connected account's public key.
    pub fn public_key(&self) -> (r: Result<&str, StellarAidError>)
        ensures
            self@ matches WalletConnectionState::Connected { public_key } ==> (r matches Ok(k)
                && k@ == public_key@),
            self@ is Disconnected ==> (r matches Err(StellarAidError::WalletConnection(m)) && m@
                == "wallet is disconnected"@),
            self@ is Connecting ==> (r matches Err(StellarAidError::WalletConnection(m)) && m@
                == "wallet connection is in progress"@),
            self@ matches WalletConnectionState::Error { message } ==> (r matches Err(
                StellarAidError::WalletConnection(m),
            ) && m@ == "previous error: "@ + message@),
    {
        match &self.state {
            WalletConnectionState::Connected { public_key } => Ok(public_key.as_str()),
            WalletConnectionState::Disconnected => Err(
                StellarAidError::WalletConnection("wallet is disconnected".to_owned()),
            ),
            WalletConnectionState::Connecting => Err(
                StellarAidError::WalletConnection("wallet connection is in progress".to_owned()),
            ),
            WalletConnectionState::Error { message } => {
                let mut m = "previous error: ".to_owned();
                m.append(message.as_str());
                Err(StellarAidError::WalletConnection(m))
            },
        }
    }
}

impl Default for Wallet {
    fn default() -> (w: Wallet)
        ensures
            w@ == WalletConnectionState::Disconnected,
    {
        Self::new()
    }
}

} // verus!
