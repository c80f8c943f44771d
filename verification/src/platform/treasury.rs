//! The platform's plain treasury: a token account the admin pays out of.
//!
//! Deposits move tokens from the depositor into the contract's account;
//! withdrawals move tokens out, admin-only, and only as far as the account's
//! balance reaches. The treasury keeps no book of its own — the token ledger
//! is the balance.

use vstd::prelude::*;

use crate::errors::Error;
use crate::token::{bal, xfer, xfer_err, xfer_ok, xfer_result, TokenLedger};

verus! {

/// The abstract state of the treasury.
#[verifier::ext_equal]
pub struct TreasuryView {
    pub contract_address: u64,
    pub initialized: bool,
    pub admin: u64,
    pub token: u64,
}

/// What one `withdraw` call does for the given inputs.
pub open spec fn withdraw_outcome(s: TreasuryView, l: Map<u64, i128>, auth: u64, to: u64, amount: i128) -> (
    Map<u64, i128>,
    Result<(), Error>,
) {
    if !s.initialized {
        (l, Err(Error::NotInitialized))
    } else if auth != s.admin {
        (l, Err(Error::Unauthorized))
    } else if bal(l, s.contract_address) < amount {
        (l, Err(Error::InsufficientBalance))
    } else if !xfer_ok(l, s.contract_address, to, amount) {
        (l, Err(xfer_err(l, s.contract_address, to, amount)))
    } else {
        (xfer(l, s.contract_address, to, amount), Ok(()))
    }
}

/// The treasury contract.
pub struct Treasury {
    contract_address: u64,
    initialized: bool,
    admin: u64,
    token: u64,
}

impl View for Treasury {
    type V = TreasuryView;

    closed spec fn view(&self) -> TreasuryView {
        TreasuryView {
            contract_address: self.contract_address,
            initialized: self.initialized,
            admin: self.admin,
            token: self.token,
        }
    }
}

impl Treasury {
    /// A fresh instance living at `contract_address` on the token ledger.
    pub fn new(contract_address: u64) -> (c: Self)
        ensures
            c@ == (TreasuryView { contract_address, initialized: false, admin: 0, token: 0 }),
    {
        Treasury { contract_address, initialized: false, admin: 0, token: 0 }
    }

    /// Record the admin and the held token, once; the admin must have
    /// approved the call.
    pub fn initialize(&mut self, auth: u64, admin: u64, token_address: u64) -> (r: Result<
        (),
        Error,
    >)
        ensures
            auth != admin ==> r == Err::<(), Error>(Error::Unauthorized) && final(self)@ == old(
                self,
            )@,
            auth == admin && old(self)@.initialized ==> r == Err::<(), Error>(
                Error::AlreadyInitialized,
            ) && final(self)@ == old(self)@,
            auth == admin && !old(self)@.initialized ==> r == Ok::<(), Error>(()) && final(self)@
                == (TreasuryView { initialized: true, admin, token: token_address, ..old(self)@ }),
    {
        if auth != admin {
            return Err(Error::Unauthorized);
        }
        if self.initialized {
            return Err(Error::AlreadyInitialized);
        }
        self.initialized = true;
        self.admin = admin;
        self.token = token_address;
        Ok(())
    }

    /// Move `amount` from `from` into the treasury's account; `from` must
    /// have approved the call.
    pub fn deposit(&mut self, ledger: &mut TokenLedger, auth: u64, from: u64, amount: i128) -> (r:
        Result<(), Error>)
        requires
            old(ledger).wf(),
        ensures
            final(ledger).wf(),
            final(self)@ == old(self)@,
            auth != from ==> r == Err::<(), Error>(Error::Unauthorized) && final(ledger)@ == old(
                ledger,
            )@,
            auth == from && !old(self)@.initialized ==> r == Err::<(), Error>(Error::NotInitialized)
                && final(ledger)@ == old(ledger)@,
            auth == from && old(self)@.initialized ==> r == xfer_result(
                old(ledger)@,
                from,
                old(self)@.contract_address,
                amount,
            ) && final(ledger)@ == (if xfer_ok(old(ledger)@, from, old(self)@.contract_address, amount) {
                xfer(old(ledger)@, from, old(self)@.contract_address, amount)
            } else {
                old(ledger)@
            }),
    {
        if auth != from {
            return Err(Error::Unauthorized);
        }
        if !self.initialized {
            return Err(Error::NotInitialized);
        }
        ledger.transfer(from, self.contract_address, amount)
    }

    /// Pay `amount` from the treasury's account to `to`; only the admin
    /// may, and only while the account covers the amount.
    pub fn withdraw(&mut self, ledger: &mut TokenLedger, auth: u64, to: u64, amount: i128) -> (r:
        Result<(), Error>)
        requires
            old(ledger).wf(),
        ensures
            final(ledger).wf(),
            final(self)@ == old(self)@,
            (final(ledger)@, r) == withdraw_outcome(old(self)@, old(ledger)@, auth, to, amount),
    {
        if !self.initialized {
            return Err(Error::NotInitialized);
        }
        if auth != self.admin {
            return Err(Error::Unauthorized);
        }
        let balance = ledger.balance_of(self.contract_address);
        if balance < amount {
            return Err(Error::InsufficientBalance);
        }
        ledger.transfer(self.contract_address, to, amount)
    }
}
} // verus!
