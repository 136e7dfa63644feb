//! Emergency pause of the escrow: an admin can halt and resume operations,
//! recording who did it and why.
use vstd::prelude::*;

verus! {

/// The error text for pausing a paused contract.
pub open spec fn already_paused_text() -> Seq<char> {
    "Contract is already paused"@
}

/// The error text for resuming a running contract.
pub open spec fn not_paused_text() -> Seq<char> {
    "Contract is not paused"@
}

/// The error text for an operation attempted while paused.
pub open spec fn paused_text() -> Seq<char> {
    "Contract is paused"@
}

/// The pause switch, with who last flipped it and why it is paused.
pub struct EscrowEmergencyPause {
    pub is_paused: bool,
    pub paused_by: Option<String>,
    pub pause_reason: Option<String>,
}

impl EscrowEmergencyPause {
    /// A running contract that was never paused.
    pub fn new() -> (p: EscrowEmergencyPause)
        ensures
            !p.is_paused,
            p.paused_by is None,
            p.pause_reason is None,
    {
        EscrowEmergencyPause { is_paused: false, paused_by: None, pause_reason: None }
    }

    /// Halts the contract on behalf of `admin` for `reason`.
    pub fn pause(&mut self, admin: &str, reason: &str) -> (r: Result<(), &'static str>)
        ensures
            old(self).is_paused ==> (r matches Err(m) && m@ == already_paused_text()) && *final(self) == *old(self),
            !old(self).is_paused ==> {
                &&& r is Ok
                &&& final(self).is_paused
                &&& final(self).paused_by matches Some(by) && by@ == admin@
                &&& final(self).pause_reason matches Some(why) && why@ == reason@
            },
    {
        if self.is_paused {
            return Err("Contract is already paused");
        }
        self.is_paused = true;
        self.paused_by = Some(admin.to_owned());
        self.pause_reason = Some(reason.to_owned());
        Ok(())
    }

    /// Resumes the contract on behalf of `admin`.
    pub fn unpause(&mut self, admin: &str) -> (r: Result<(), &'static str>)
        ensures
            !old(self).is_paused ==> (r matches Err(m) && m@ == not_paused_text()) && *final(self)
                == *old(self),
            old(self).is_paused ==> {
                &&& r is Ok
                &&& !final(self).is_paused
                &&& final(self).paused_by matches Some(by) && by@ == admin@
                &&& final(self).pause_reason is None
            },
    {
        if !self.is_paused {
            return Err("Contract is not paused");
        }
        self.is_paused = false;
        self.paused_by = Some(admin.to_owned());
        self.pause_reason = None;
        Ok(())
    }

    /// Refuses while the contract is paused.
    pub fn check_not_paused(&self) -> (r: Result<(), &'static str>)
        ensures
            self.is_paused ==> (r matches Err(m) && m@ == paused_text()),
            !self.is_paused ==> r is Ok,
    {
        if self.is_paused {
            return Err("Contract is paused");
        }
        Ok(())
    }
}

impl Default for EscrowEmergencyPause {
    fn default() -> (p: EscrowEmergencyPause)
        ensures
            !p.is_paused,
            p.paused_by is None,
            p.pause_reason is None,
    {
        Self::new()
    }
}

} // verus!
