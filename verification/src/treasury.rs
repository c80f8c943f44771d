//! A pausable treasury with a minimum-balance floor.
//!
//! The treasury holds platform funds on its own token account. The admin can
//! pause it (blocking deposits and withdrawals) and set a minimum balance
//! that withdrawals may not break through. The token ledger is the balance;
//! the contract keeps only configuration.

use vstd::prelude::*;

use crate::errors::Error;
use crate::token::{bal, xfer, xfer_err, xfer_ok, TokenLedger};

verus! {

/// A notification a successful deposit leaves behind.
#[derive(Clone, Copy, Debug, PartialEq, Eq, Structural)]
pub enum TreasuryEvent {
    Deposit { from: u64, amount: i128, token: u64 },
}

/// The abstract state of the treasury.
#[verifier::ext_equal]
pub struct TreasuryView {
    pub contract_address: u64,
    pub initialized: bool,
    pub admin: u64,
    pub token: u64,
    pub paused: bool,
    pub min_balance: i128,
    pub events: Seq<TreasuryEvent>,
}

/// What one `withdraw` call does for the given inputs.
pub open spec fn withdraw_outcome(
    s: TreasuryView,
    l: Map<u64, i128>,
    auth: u64,
    to: u64,
    amount: i128,
) -> (Map<u64, i128>, Result<(), Error>) {
    if s.paused {
        (l, Err(Error::Paused))
    } else if !s.initialized {
        (l, Err(Error::NotInitialized))
    } else if auth != s.admin {
        (l, Err(Error::Unauthorized))
    } else if amount < 0 {
        (l, Err(Error::InvalidAmount))
    } else if bal(l, s.contract_address) < amount {
        (l, Err(Error::InsufficientBalance))
    } else if bal(l, s.contract_address) - amount < s.min_balance {
        (l, Err(Error::BelowMinimumBalance))
    } else if !xfer_ok(l, s.contract_address, to, amount) {
        (l, Err(xfer_err(l, s.contract_address, to, amount)))
    } else {
        (xfer(l, s.contract_address, to, amount), Ok(()))
    }
}

/// The treasury contract.
pub struct Treasury {
    contract_address: u64,
    initialized: bool,
    admin: u64,
    token: u64,
    paused: bool,
    min_balance: i128,
    events: Vec<TreasuryEvent>,
}

impl View for Treasury {
    type V = TreasuryView;

    closed spec fn view(&self) -> TreasuryView {
        TreasuryView {
            contract_address: self.contract_address,
            initialized: self.initialized,
            admin: self.admin,
            token: self.token,
            paused: self.paused,
            min_balance: self.min_balance,
            events: self.events@,
        }
    }
}

impl Treasury {
    /// A fresh instance living at `contract_address` on the token ledger.
    pub fn new(contract_address: u64) -> (c: Self)
        ensures
            c@ == (TreasuryView {
                contract_address,
                initialized: false,
                admin: 0,
                token: 0,
                paused: false,
                min_balance: 0,
                events: Seq::empty(),
            }),
    {
        let c = Treasury {
            contract_address,
            initialized: false,
            admin: 0,
            token: 0,
            paused: false,
            min_balance: 0,
            events: Vec::new(),
        };
        proof {
            assert(c@.events =~= Seq::<TreasuryEvent>::empty());
            assert(c@ =~= (TreasuryView {
                contract_address,
                initialized: false,
                admin: 0,
                token: 0,
                paused: false,
                min_balance: 0,
                events: Seq::empty(),
            }));
        }
        c
    }

    /// Record the admin and the held token, once, unpaused and with no
    /// minimum balance; the admin must have approved the call.
    pub fn initialize(&mut self, auth: u64, admin: u64, token_address: u64) -> (r: Result<
        (),
        Error,
    >)
        ensures
            auth != admin ==> r == Err::<(), Error>(Error::Unauthorized) && final(self)@ == old(
                self,
            )@,
            auth == admin && old(self)@.initialized ==> r == Err::<(), Error>(
                Error::AlreadyInitialized,
            ) && final(self)@ == old(self)@,
            auth == admin && !old(self)@.initialized ==> r == Ok::<(), Error>(()) && final(self)@
                == (TreasuryView {
                initialized: true,
                admin,
                token: token_address,
                paused: false,
                min_balance: 0,
                ..old(self)@
            }),
    {
        if auth != admin {
            return Err(Error::Unauthorized);
        }
        if self.initialized {
            return Err(Error::AlreadyInitialized);
        }
        self.initialized = true;
        self.admin = admin;
        self.token = token_address;
        self.paused = false;
        self.min_balance = 0;
        Ok(())
    }

    /// Set the pause flag; only the admin may. While paused, deposits and
    /// withdrawals are refused.
    pub fn set_paused(&mut self, auth: u64, paused: bool) -> (r: Result<(), Error>)
        ensures
            !old(self)@.initialized ==> r == Err::<(), Error>(Error::NotInitialized)
                && final(self)@ == old(self)@,
            old(self)@.initialized && auth != old(self)@.admin ==> r == Err::<(), Error>(
                Error::Unauthorized,
            ) && final(self)@ == old(self)@,
            old(self)@.initialized && auth == old(self)@.admin ==> r == Ok::<(), Error>(())
                && final(self)@ == (TreasuryView { paused, ..old(self)@ }),
    {
        if !self.initialized {
            return Err(Error::NotInitialized);
        }
        if auth != self.admin {
            return Err(Error::Unauthorized);
        }
        self.paused = paused;
        Ok(())
    }

    /// Set the minimum balance withdrawals must leave behind; only the
    /// admin may, and it cannot be negative.
    pub fn set_min_balance(&mut self, auth: u64, amount: i128) -> (r: Result<(), Error>)
        ensures
            !old(self)@.initialized ==> r == Err::<(), Error>(Error::NotInitialized)
                && final(self)@ == old(self)@,
            old(self)@.initialized && auth != old(self)@.admin ==> r == Err::<(), Error>(
                Error::Unauthorized,
            ) && final(self)@ == old(self)@,
            old(self)@.initialized && auth == old(self)@.admin && amount < 0 ==> r == Err::<
                (),
                Error,
            >(Error::InvalidAmount) && final(self)@ == old(self)@,
            old(self)@.initialized && auth == old(self)@.admin && amount >= 0 ==> r == Ok::<
                (),
                Error,
            >(()) && final(self)@ == (TreasuryView { min_balance: amount, ..old(self)@ }),
    {
        if !self.initialized {
            return Err(Error::NotInitialized);
        }
        if auth != self.admin {
            return Err(Error::Unauthorized);
        }
        if amount < 0 {
            return Err(Error::InvalidAmount);
        }
        self.min_balance = amount;
        Ok(())
    }

    /// Move `amount` from `from` into the treasury's account; `from` must
    /// have approved the call; refused while paused.
    pub fn deposit(&mut self, ledger: &mut TokenLedger, auth: u64, from: u64, amount: i128) -> (r:
        Result<(), Error>)
        requires
            old(ledger).wf(),
        ensures
            final(ledger).wf(),
            old(self)@.paused ==> r == Err::<(), Error>(Error::Paused) && final(ledger)@ == old(
                ledger,
            )@ && final(self)@ == old(self)@,
            !old(self)@.paused && auth != from ==> r == Err::<(), Error>(Error::Unauthorized)
                && final(ledger)@ == old(ledger)@ && final(self)@ == old(self)@,
            !old(self)@.paused && auth == from && !old(self)@.initialized ==> r == Err::<(), Error>(
                Error::NotInitialized,
            ) && final(ledger)@ == old(ledger)@ && final(self)@ == old(self)@,
            !old(self)@.paused && auth == from && old(self)@.initialized && !xfer_ok(
                old(ledger)@,
                from,
                old(self)@.contract_address,
                amount,
            ) ==> r == Err::<(), Error>(
                xfer_err(old(ledger)@, from, old(self)@.contract_address, amount),
            ) && final(ledger)@ == old(ledger)@ && final(self)@ == old(self)@,
            !old(self)@.paused && auth == from && old(self)@.initialized && xfer_ok(
                old(ledger)@,
                from,
                old(self)@.contract_address,
                amount,
            ) ==> r == Ok::<(), Error>(()) && final(ledger)@ == xfer(
                old(ledger)@,
                from,
                old(self)@.contract_address,
                amount,
            ) && final(self)@ == (TreasuryView {
                events: old(self)@.events.push(
                    TreasuryEvent::Deposit { from, amount, token: old(self)@.token },
                ),
                ..old(self)@
            }),
    {
        if self.paused {
            return Err(Error::Paused);
        }
        if auth != from {
            return Err(Error::Unauthorized);
        }
        if !self.initialized {
            return Err(Error::NotInitialized);
        }
        match ledger.transfer(from, self.contract_address, amount) {
            Ok(()) => {},
            Err(e) => {
                return Err(e);
            },
        }
        self.events.push(TreasuryEvent::Deposit { from, amount, token: self.token });
        Ok(())
    }

    /// Pay `amount` from the treasury's account to `to`. Only the admin
    /// may; refused while paused, when the account cannot cover the amount,
    /// and when the payout would leave less than the minimum balance.
    pub fn withdraw(&mut self, ledger: &mut TokenLedger, auth: u64, to: u64, amount: i128) -> (r:
        Result<(), Error>)
        requires
            old(ledger).wf(),
        ensures
            final(ledger).wf(),
            final(self)@ == old(self)@,
            (final(ledger)@, r) == withdraw_outcome(old(self)@, old(ledger)@, auth, to, amount),
    {
        if self.paused {
            return Err(Error::Paused);
        }
        if !self.initialized {
            return Err(Error::NotInitialized);
        }
        if auth != self.admin {
            return Err(Error::Unauthorized);
        }
        if amount < 0 {
            return Err(Error::InvalidAmount);
        }
        let balance = ledger.balance_of(self.contract_address);
        if balance < amount {
            return Err(Error::InsufficientBalance);
        }
        if balance - amount < self.min_balance {
            return Err(Error::BelowMinimumBalance);
        }
        ledger.transfer(self.contract_address, to, amount)
    }

    /// The events the contract has emitted, oldest first.
    pub fn events(&self) -> (r: &Vec<TreasuryEvent>)
        ensures
            r@ == self@.events,
    {
        &self.events
    }
}

/// Asking for more than the treasury's token balance fails and changes
/// nothing, whoever asks.
pub proof fn lemma_treasury_withdraw_insufficient(
    s: TreasuryView,
    l: Map<u64, i128>,
    auth: u64,
    to: u64,
    amount: i128,
)
    requires
        amount > bal(l, s.contract_address),
    ensures
        ({
            let (l1, r1) = withdraw_outcome(s, l, auth, to, amount);
            r1 is Err && l1 == l
        }),
        !s.paused && s.initialized && auth == s.admin && amount >= 0 ==> withdraw_outcome(
            s,
            l,
            auth,
            to,
            amount,
        ).1 == Err::<(), Error>(Error::InsufficientBalance),
{
}

} // verus!
